//! Identifiers and their text.
//!
//! An identifier is 16 bytes. Its text is the lower-case hexadecimal digits
//! of those bytes, either in one run of 32 characters or in five groups of
//! 8, 4, 4, 4 and 12 digits with a hyphen between them, and optionally in
//! upper case. The `uuid` crate generates the bytes and writes the text; what
//! it is trusted to do is stated on the private functions that call it.

use vstd::prelude::*;
use crate::version::UuidVersion;

verus! {

/// The two renderings of an identifier.
#[derive(Clone, Copy, Debug, PartialEq, Eq, Structural)]
pub enum Layout {
    /// 36 characters: groups of 8, 4, 4, 4 and 12 digits between hyphens.
    Hyphenated,
    /// 32 characters: the digits alone.
    Compact,
}

/// A 128-bit identifier, held as its 16 bytes in the order they are written.
#[derive(Clone, Copy, Debug, PartialEq, Eq)]
pub struct Identifier {
    bytes: [u8; 16],
}

impl View for Identifier {
    type V = Seq<u8>;

    closed spec fn view(&self) -> Seq<u8> {
        self.bytes@
    }
}

/// The number that the version field of a generated identifier holds.
pub open spec fn version_number(version: UuidVersion) -> int {
    match version {
        UuidVersion::V4 => 4,
        UuidVersion::V7 => 7,
    }
}

/// The bytes are those of an identifier of `version`: 16 of them, with the
/// version in the high half of byte 6 and the bits `10` on top of byte 8.
pub open spec fn has_version(bytes: Seq<u8>, version: UuidVersion) -> bool {
    &&& bytes.len() == 16
    &&& bytes[6] as int / 16 == version_number(version)
    &&& bytes[8] as int / 64 == 2
}

/// The lower-case hexadecimal digit for a value below 16.
pub open spec fn hex_digit(value: int) -> char {
    if value < 10 {
        (0x30 + value) as char
    } else {
        (0x57 + value) as char
    }
}

/// The compact text: two digits for each byte, the high half first.
pub open spec fn compact_text(bytes: Seq<u8>) -> Seq<char> {
    Seq::new(
        2 * bytes.len(),
        |i: int|
            hex_digit(
                if i % 2 == 0 {
                    bytes[i / 2] as int / 16
                } else {
                    bytes[i / 2] as int % 16
                },
            ),
    )
}

/// The places of the four hyphens in the hyphenated text.
pub open spec fn is_hyphen_index(i: int) -> bool {
    i == 8 || i == 13 || i == 18 || i == 23
}

/// How many hyphens stand before place `i` of the hyphenated text.
pub open spec fn hyphens_before(i: int) -> int {
    if i < 8 {
        0
    } else if i < 13 {
        1
    } else if i < 18 {
        2
    } else if i < 23 {
        3
    } else {
        4
    }
}

/// The hyphenated text of 16 bytes: the compact text with a hyphen put in
/// at places 8, 13, 18 and 23.
pub open spec fn hyphenated_text(bytes: Seq<u8>) -> Seq<char> {
    Seq::new(
        36,
        |i: int|
            if is_hyphen_index(i) {
                '-'
            } else {
                compact_text(bytes)[i - hyphens_before(i)]
            },
    )
}

/// The upper-case form of a character: the letters `a` to `z` become `A` to
/// `Z`, every other character stays.
pub open spec fn upper_char(c: char) -> char {
    if 'a' <= c && c <= 'z' {
        (c as int - 32) as char
    } else {
        c
    }
}

/// The text with each character in its upper-case form.
pub open spec fn upper_text(text: Seq<char>) -> Seq<char> {
    Seq::new(text.len(), |i: int| upper_char(text[i]))
}

/// The layout that the two format flags select. Alone, each flag selects
/// its own layout; neither selects the hyphenated one; both together leave
/// the choice to `prefer_full`, which is read in no other case.
pub open spec fn chosen_layout(simple: bool, full: bool, prefer_full: bool) -> Layout {
    if full && simple {
        if prefer_full {
            Layout::Hyphenated
        } else {
            Layout::Compact
        }
    } else if simple {
        Layout::Compact
    } else {
        Layout::Hyphenated
    }
}

/// The text of `bytes` in `layout`, in upper case if asked for.
pub open spec fn rendered(bytes: Seq<u8>, layout: Layout, uppercase: bool) -> Seq<char> {
    let text = match layout {
        Layout::Hyphenated => hyphenated_text(bytes),
        Layout::Compact => compact_text(bytes),
    };
    if uppercase {
        upper_text(text)
    } else {
        text
    }
}

/// A hexadecimal digit whose letters, if it is one, are of the given case.
pub open spec fn is_hex_digit(c: char, uppercase: bool) -> bool {
    ||| '0' <= c && c <= '9'
    ||| !uppercase && 'a' <= c && c <= 'f'
    ||| uppercase && 'A' <= c && c <= 'F'
}

/// 32 hexadecimal digits of one case and nothing else.
pub open spec fn is_compact_form(text: Seq<char>, uppercase: bool) -> bool {
    &&& text.len() == 32
    &&& forall|i: int| 0 <= i < 32 ==> is_hex_digit(#[trigger] text[i], uppercase)
}

/// 36 characters: a hyphen at each of the places 8, 13, 18 and 23 and a
/// hexadecimal digit of one case at every other, so that there are four
/// hyphens and the digits form groups of 8, 4, 4, 4 and 12.
pub open spec fn is_hyphenated_form(text: Seq<char>, uppercase: bool) -> bool {
    &&& text.len() == 36
    &&& forall|i: int|
        0 <= i < 36 ==> if is_hyphen_index(i) {
            #[trigger] text[i] == '-'
        } else {
            is_hex_digit(text[i], uppercase)
        }
}

/// The places at which the text holds a hyphen.
pub open spec fn hyphen_places(text: Seq<char>) -> Set<int> {
    Set::new(|i: int| 0 <= i < text.len() && text[i] == '-')
}

/// The text is of the form that belongs to `layout`.
pub open spec fn has_form(text: Seq<char>, layout: Layout, uppercase: bool) -> bool {
    match layout {
        Layout::Hyphenated => is_hyphenated_form(text, uppercase),
        Layout::Compact => is_compact_form(text, uppercase),
    }
}

/// No character of the text is a lower-case letter `a` to `z`.
pub open spec fn has_no_lowercase(text: Seq<char>) -> bool {
    forall|i: int| 0 <= i < text.len() ==> !('a' <= #[trigger] text[i] && text[i] <= 'z')
}

/// No character of the text is an upper-case letter `A` to `Z`.
pub open spec fn has_no_uppercase(text: Seq<char>) -> bool {
    forall|i: int| 0 <= i < text.len() ==> !('A' <= #[trigger] text[i] && text[i] <= 'Z')
}

/// The precedence between the two flags is read only where both are set:
/// with at most one of them, either preference selects the same layout.
pub proof fn lemma_preference_matters_only_in_conflict(simple: bool, full: bool)
    requires
        !(simple && full),
    ensures
        chosen_layout(simple, full, true) == chosen_layout(simple, full, false),
{
}

/// Every rendering of 16 bytes has the form of its layout, in the case that
/// was asked for.
pub proof fn lemma_rendered_form(bytes: Seq<u8>, layout: Layout, uppercase: bool)
    requires
        bytes.len() == 16,
    ensures
        has_form(rendered(bytes, layout, uppercase), layout, uppercase),
{
    let compact = compact_text(bytes);
    assert forall|k: int| 0 <= k < 32 implies is_hex_digit(#[trigger] compact[k], false)
        && is_hex_digit(upper_char(compact[k]), true) by {
        let b = bytes[k / 2] as int;
        assert(0 <= b / 16 < 16 && 0 <= b % 16 < 16);
    }
    let text = rendered(bytes, layout, uppercase);
    match layout {
        Layout::Compact => {
            assert forall|i: int| 0 <= i < 32 implies is_hex_digit(
                #[trigger] text[i],
                uppercase,
            ) by {
                assert(is_hex_digit(compact[i], false));
            }
        },
        Layout::Hyphenated => {
            assert forall|i: int| 0 <= i < 36 implies if is_hyphen_index(i) {
                #[trigger] text[i] == '-'
            } else {
                is_hex_digit(text[i], uppercase)
            } by {
                if !is_hyphen_index(i) {
                    assert(is_hex_digit(compact[i - hyphens_before(i)], false));
                }
            }
        },
    }
}

/// A text of the hyphenated form holds exactly four hyphens, and one of the
/// compact form holds none.
pub proof fn lemma_form_counts_hyphens(text: Seq<char>, layout: Layout, uppercase: bool)
    requires
        has_form(text, layout, uppercase),
    ensures
        hyphen_places(text).finite(),
        layout == Layout::Hyphenated ==> hyphen_places(text) == set![8int, 13int, 18int, 23int]
            && hyphen_places(text).len() == 4,
        layout == Layout::Compact ==> hyphen_places(text).len() == 0,
{
    match layout {
        Layout::Hyphenated => {
            let four = set![8int, 13int, 18int, 23int];
            assert forall|i: int| hyphen_places(text).contains(i) <==> four.contains(i) by {
                if 0 <= i < 36 && !is_hyphen_index(i) {
                    assert(is_hex_digit(text[i], uppercase));
                }
            }
            assert(hyphen_places(text) =~= four);
            assert(four.len() == 4) by {
                let one = set![8int];
                let two = one.insert(13int);
                let three = two.insert(18int);
                assert(one.len() == 1);
                assert(two.len() == 2);
                assert(three.len() == 3);
                assert(four =~= three.insert(23int));
            }
        },
        Layout::Compact => {
            assert forall|i: int| !hyphen_places(text).contains(i) by {
                if 0 <= i < 32 {
                    assert(is_hex_digit(text[i], uppercase));
                }
            }
            assert(hyphen_places(text) =~= Set::<int>::empty());
        },
    }
}

/// A text of either form holds no letter of the other case: none in lower
/// case when it is in upper case, none in upper case when it is not.
pub proof fn lemma_form_fixes_case(text: Seq<char>, layout: Layout, uppercase: bool)
    requires
        has_form(text, layout, uppercase),
    ensures
        uppercase ==> has_no_lowercase(text),
        !uppercase ==> has_no_uppercase(text),
{
    assert forall|i: int| 0 <= i < text.len() implies (uppercase ==> !('a' <= #[trigger] text[i]
        && text[i] <= 'z')) && (!uppercase ==> !('A' <= text[i] && text[i] <= 'Z')) by {
        match layout {
            Layout::Compact => {
                assert(is_hex_digit(text[i], uppercase));
            },
            Layout::Hyphenated => {
                if !is_hyphen_index(i) {
                    assert(is_hex_digit(text[i], uppercase));
                }
            },
        }
    }
}

/// The hyphenated text is the compact text cut into groups of 8, 4, 4, 4 and
/// 12 digits, with one hyphen between neighbours.
pub proof fn lemma_hyphenated_groups(bytes: Seq<u8>)
    requires
        bytes.len() == 16,
    ensures
        hyphenated_text(bytes) == compact_text(bytes).subrange(0, 8) + seq!['-'] + compact_text(
            bytes,
        ).subrange(8, 12) + seq!['-'] + compact_text(bytes).subrange(12, 16) + seq!['-']
            + compact_text(bytes).subrange(16, 20) + seq!['-'] + compact_text(bytes).subrange(
            20,
            32,
        ),
{
    let c = compact_text(bytes);
    let grouped = c.subrange(0, 8) + seq!['-'] + c.subrange(8, 12) + seq!['-'] + c.subrange(12, 16)
        + seq!['-'] + c.subrange(16, 20) + seq!['-'] + c.subrange(20, 32);
    assert(hyphenated_text(bytes) =~= grouped);
}

/// Calls `uuid::Uuid::new_v4` and takes the bytes of what it returns. The
/// crate fills them from the system's random source and then sets the
/// version field to 4 and the two variant bits to `10`; only that is
/// claimed here. The crate panics if the random source fails.
#[verifier::external_body]
fn random_bytes() -> (bytes: [u8; 16])
    ensures
        has_version(bytes@, UuidVersion::V4),
{
    uuid::Uuid::new_v4().into_bytes()
}

/// Calls `uuid::Uuid::now_v7` and takes the bytes of what it returns. The
/// crate builds them from the clock and random bits and sets the version
/// field to 7 and the two variant bits to `10`; only that is claimed here.
/// The crate panics if the random source fails or if the clock stands
/// before the year 1970.
#[verifier::external_body]
fn time_ordered_bytes() -> (bytes: [u8; 16])
    ensures
        has_version(bytes@, UuidVersion::V7),
{
    uuid::Uuid::now_v7().into_bytes()
}

/// Writes the bytes with the `Display` of `uuid::Uuid`, which gives the
/// hyphenated form in lower case.
#[verifier::external_body]
fn hyphenated_string(bytes: &[u8; 16]) -> (text: String)
    ensures
        text@ == hyphenated_text(bytes@),
{
    uuid::Uuid::from_bytes(*bytes).to_string()
}

/// Writes the bytes with the `Display` of `uuid::fmt::Simple`, which gives
/// the 32 digits in lower case.
#[verifier::external_body]
fn compact_string(bytes: &[u8; 16]) -> (text: String)
    ensures
        text@ == compact_text(bytes@),
{
    uuid::Uuid::from_bytes(*bytes).as_simple().to_string()
}

/// Calls `str::to_ascii_uppercase`: a copy of the text in which the letters
/// `a` to `z` are replaced by `A` to `Z` and nothing else is changed.
#[verifier::external_body]
fn ascii_uppercase(text: &str) -> (upper: String)
    ensures
        upper@ == upper_text(text@),
{
    text.to_ascii_uppercase()
}

/// Selects the layout for the two format flags and the precedence between
/// them.
pub fn choose_layout(simple: bool, full: bool, prefer_full: bool) -> (layout: Layout)
    ensures
        layout == chosen_layout(simple, full, prefer_full),
{
    if full && simple {
        if prefer_full {
            Layout::Hyphenated
        } else {
            Layout::Compact
        }
    } else if full {
        Layout::Hyphenated
    } else if simple {
        Layout::Compact
    } else {
        Layout::Hyphenated
    }
}

impl Identifier {
    /// An identifier has 16 bytes.
    pub proof fn lemma_sixteen_bytes(self)
        ensures
            self@.len() == 16,
    {
    }

    /// The identifier with the given bytes.
    pub fn from_bytes(bytes: [u8; 16]) -> (id: Identifier)
        ensures
            id@ == bytes@,
    {
        Identifier { bytes }
    }

    /// The bytes of the identifier.
    pub fn as_bytes(&self) -> (bytes: &[u8; 16])
        ensures
            bytes@ == self@,
    {
        &self.bytes
    }

    /// A fresh identifier of the given version. Which one it is depends on
    /// chance and on the clock; its version and variant fields are fixed.
    pub fn generate(version: UuidVersion) -> (id: Identifier)
        ensures
            has_version(id@, version),
    {
        let bytes = match version {
            UuidVersion::V4 => random_bytes(),
            UuidVersion::V7 => time_ordered_bytes(),
        };
        Identifier { bytes }
    }

    /// The text of the identifier in the given layout and case.
    pub fn render(&self, layout: Layout, uppercase: bool) -> (text: String)
        ensures
            text@ == rendered(self@, layout, uppercase),
            has_form(text@, layout, uppercase),
    {
        let plain = match layout {
            Layout::Hyphenated => hyphenated_string(&self.bytes),
            Layout::Compact => compact_string(&self.bytes),
        };
        proof {
            lemma_rendered_form(self@, layout, uppercase);
        }
        if uppercase {
            ascii_uppercase(plain.as_str())
        } else {
            plain
        }
    }
}

/// Generates one identifier of `version` and returns its text.
///
/// The layout follows the two format flags; `prefer_full` decides only where
/// both are set. The text is that of some identifier of the version asked
/// for, in the chosen layout and case: which identifier, nobody can say
/// beforehand.
pub fn generate_uuid(
    version: UuidVersion,
    uppercase: bool,
    simple: bool,
    full: bool,
    prefer_full: bool,
) -> (text: String)
    ensures
        exists|bytes: Seq<u8>| #[trigger]
            has_version(bytes, version) && text@ == rendered(
                bytes,
                chosen_layout(simple, full, prefer_full),
                uppercase,
            ),
        !simple ==> is_hyphenated_form(text@, uppercase),
        simple && !full ==> is_compact_form(text@, uppercase),
        simple && full && prefer_full ==> is_hyphenated_form(text@, uppercase),
        simple && full && !prefer_full ==> is_compact_form(text@, uppercase),
        uppercase ==> has_no_lowercase(text@),
        !uppercase ==> has_no_uppercase(text@),
{
    let id = Identifier::generate(version);
    let layout = choose_layout(simple, full, prefer_full);
    let text = id.render(layout, uppercase);
    proof {
        assert(has_version(id@, version));
        lemma_form_fixes_case(text@, layout, uppercase);
    }
    text
}

} // verus!
