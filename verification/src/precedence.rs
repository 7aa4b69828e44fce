//! Which of the two conflicting format flags wins.
//!
//! Both flags may be given at once, in separate tokens or combined in one
//! short-flag cluster such as `-fs`. The one whose character stands first in
//! the raw argument list wins. A position is a pair of a token's index and a
//! character's offset behind the token's dash, and positions are ordered by
//! token first, by offset second.

use vstd::prelude::*;
use vstd::string::axiom_spec_iter;

verus! {

/// The two classes of format characters.
#[derive(Clone, Copy, Debug, PartialEq, Eq, Structural)]
pub enum FlagClass {
    /// `f` or `F`: the hyphenated rendering.
    Full,
    /// `s` or `S`: the compact rendering.
    Simple,
}

/// The outcome of the scan: whether both classes were seen, and whether the
/// full flag is to be preferred. Without a conflict the preference is `true`.
#[derive(Clone, Copy, Debug, PartialEq, Eq, Structural)]
pub struct FormatPrecedence {
    pub prefer_full: bool,
    pub conflict_detected: bool,
}

/// The class that a character denotes, if any.
pub open spec fn class_of(c: char) -> Option<FlagClass> {
    if c == 'f' || c == 'F' {
        Some(FlagClass::Full)
    } else if c == 's' || c == 'S' {
        Some(FlagClass::Simple)
    } else {
        None
    }
}

/// The class that is not `class`.
pub open spec fn other_class(class: FlagClass) -> FlagClass {
    match class {
        FlagClass::Full => FlagClass::Simple,
        FlagClass::Simple => FlagClass::Full,
    }
}

/// A short-flag cluster is a token that begins with exactly one dash. Tokens
/// without a dash and tokens that begin with two are never scanned.
pub open spec fn is_flag_cluster(token: Seq<char>) -> bool {
    &&& token.len() >= 1
    &&& token[0] == '-'
    &&& (token.len() >= 2 ==> token[1] != '-')
}

/// A character of `class` stands in token `token`, which is a cluster,
/// `offset` characters behind its dash.
pub open spec fn occurs_at(args: Seq<Seq<char>>, class: FlagClass, token: int, offset: int) -> bool {
    &&& 0 <= token < args.len()
    &&& is_flag_cluster(args[token])
    &&& 0 <= offset < args[token].len() - 1
    &&& class_of(args[token][offset + 1]) == Some(class)
}

/// The order of positions: by token, then by offset.
pub open spec fn precedes(token_a: int, offset_a: int, token_b: int, offset_b: int) -> bool {
    token_a < token_b || (token_a == token_b && offset_a < offset_b)
}

/// Some character of `class` stands in a cluster of `args`.
pub open spec fn occurs(args: Seq<Seq<char>>, class: FlagClass) -> bool {
    exists|token: int, offset: int| occurs_at(args, class, token, offset)
}

/// The position is the earliest at which `class` occurs.
pub open spec fn is_first(args: Seq<Seq<char>>, class: FlagClass, token: int, offset: int) -> bool {
    &&& occurs_at(args, class, token, offset)
    &&& forall|t: int, o: int| #[trigger]
        occurs_at(args, class, t, o) ==> !precedes(t, o, token, offset)
}

/// Some character of `class` stands before every character of the other
/// class.
pub open spec fn comes_first(args: Seq<Seq<char>>, class: FlagClass) -> bool {
    exists|token: int, offset: int|
        {
            &&& #[trigger] occurs_at(args, class, token, offset)
            &&& forall|t: int, o: int| #[trigger]
                occurs_at(args, other_class(class), t, o) ==> precedes(token, offset, t, o)
        }
}

/// What the scan returns for `args`: a conflict when both classes occur, and
/// then the preference of the class that comes first.
pub open spec fn resolved(args: Seq<Seq<char>>) -> FormatPrecedence {
    if occurs(args, FlagClass::Full) && occurs(args, FlagClass::Simple) {
        FormatPrecedence {
            prefer_full: comes_first(args, FlagClass::Full),
            conflict_detected: true,
        }
    } else {
        FormatPrecedence { prefer_full: true, conflict_detected: false }
    }
}

/// What is known of one class while the scan stands at a frontier: nothing
/// of that class lies before the frontier, or the recorded position is the
/// earliest of all.
spec fn known_first(
    args: Seq<Seq<char>>,
    class: FlagClass,
    found: Option<(usize, usize)>,
    token: int,
    offset: int,
) -> bool {
    match found {
        None => forall|t: int, o: int| #[trigger]
            occurs_at(args, class, t, o) ==> !precedes(t, o, token, offset),
        Some(at) => is_first(args, class, at.0 as int, at.1 as int),
    }
}

/// The offset behind the dash of the character at place `index` of a token.
/// The dash itself, at place 0, stands before offset 0.
spec fn offset_of(index: int) -> int {
    if index >= 1 {
        index - 1
    } else {
        0
    }
}

fn classify(c: char) -> (r: Option<FlagClass>)
    ensures
        r == class_of(c),
{
    if c == 'f' || c == 'F' {
        Some(FlagClass::Full)
    } else if c == 's' || c == 'S' {
        Some(FlagClass::Simple)
    } else {
        None
    }
}

/// Whether `token` is a short-flag cluster, and its length in characters.
fn cluster_length(token: &str) -> (r: (bool, usize))
    ensures
        r.0 == is_flag_cluster(token@),
        r.1 == token@.len(),
{
    let n: usize = token.unicode_len();
    if n == 0 {
        (false, n)
    } else if token.get_char(0) != '-' {
        (false, n)
    } else if n >= 2 && token.get_char(1) == '-' {
        (false, n)
    } else {
        (true, n)
    }
}

/// Scans the raw argument list, program name included, and says which
/// format flag wins.
///
/// Only short-flag clusters are read; within them every character counts,
/// also one that belongs to a value written into the cluster. The first
/// occurrence of each class is the one that matters.
pub fn determine_format_precedence(args: &Vec<String>) -> (r: FormatPrecedence)
    ensures
        r == resolved(args.deep_view()),
{
    let ghost tokens = args.deep_view();
    let mut full: Option<(usize, usize)> = None;
    let mut simple: Option<(usize, usize)> = None;
    let mut t: usize = 0;
    while t < args.len()
        invariant
            t <= args.len(),
            tokens == args.deep_view(),
            known_first(tokens, FlagClass::Full, full, t as int, 0),
            known_first(tokens, FlagClass::Simple, simple, t as int, 0),
        decreases args.len() - t,
    {
        let token = args[t].as_str();
        assert(tokens[t as int] == token@);
        let (cluster, n) = cluster_length(token);
        if cluster {
            let mut j: usize = 0;
            let chars = token.chars();
            proof {
                axiom_spec_iter(token);
            }
            for c in it: chars
                invariant
                    it.seq() == token@,
                    j == it.index(),
                    t < args.len(),
                    tokens == args.deep_view(),
                    tokens[t as int] == token@,
                    n == token@.len(),
                    is_flag_cluster(token@),
                    known_first(tokens, FlagClass::Full, full, t as int, offset_of(j as int)),
                    known_first(tokens, FlagClass::Simple, simple, t as int, offset_of(j as int)),
            {
                if j >= 1 {
                    match classify(c) {
                        Some(FlagClass::Full) => {
                            if full.is_none() {
                                full = Some((t, j - 1));
                            }
                        },
                        Some(FlagClass::Simple) => {
                            if simple.is_none() {
                                simple = Some((t, j - 1));
                            }
                        },
                        None => {},
                    }
                }
                j += 1;
            }
        }
        t += 1;
    }
    match (full, simple) {
        (Some(f), Some(s)) => {
            let prefer_full = f.0 < s.0 || (f.0 == s.0 && f.1 < s.1);
            proof {
                lemma_first_positions_decide(
                    tokens,
                    f.0 as int,
                    f.1 as int,
                    s.0 as int,
                    s.1 as int,
                );
            }
            FormatPrecedence { prefer_full, conflict_detected: true }
        },
        _ => FormatPrecedence { prefer_full: true, conflict_detected: false },
    }
}

/// Once the earliest position of each class is known, nothing else of the
/// argument list matters: there is a conflict, and the full flag is
/// preferred exactly when its earliest position precedes that of the simple
/// flag.
pub proof fn lemma_first_positions_decide(
    args: Seq<Seq<char>>,
    full_token: int,
    full_offset: int,
    simple_token: int,
    simple_offset: int,
)
    requires
        is_first(args, FlagClass::Full, full_token, full_offset),
        is_first(args, FlagClass::Simple, simple_token, simple_offset),
    ensures
        occurs(args, FlagClass::Full),
        occurs(args, FlagClass::Simple),
        comes_first(args, FlagClass::Full) == precedes(
            full_token,
            full_offset,
            simple_token,
            simple_offset,
        ),
        comes_first(args, FlagClass::Simple) == precedes(
            simple_token,
            simple_offset,
            full_token,
            full_offset,
        ),
        resolved(args) == (FormatPrecedence {
            prefer_full: precedes(full_token, full_offset, simple_token, simple_offset),
            conflict_detected: true,
        }),
{
    assert(occurs_at(args, FlagClass::Full, full_token, full_offset));
    assert(occurs_at(args, FlagClass::Simple, simple_token, simple_offset));
}

/// A class that occurs has an earliest occurrence.
proof fn lemma_earliest_exists(args: Seq<Seq<char>>, class: FlagClass, token: int, offset: int)
    -> (first: (int, int))
    requires
        occurs_at(args, class, token, offset),
    ensures
        is_first(args, class, first.0, first.1),
    decreases token, offset,
{
    if exists|t: int, o: int| occurs_at(args, class, t, o) && precedes(t, o, token, offset) {
        let (t, o) = choose|t: int, o: int|
            occurs_at(args, class, t, o) && precedes(t, o, token, offset);
        lemma_earliest_exists(args, class, t, o)
    } else {
        (token, offset)
    }
}

/// Where both classes occur and a character of `class` stands before every
/// character of the other class, a conflict is reported and `class` wins:
/// the full flag is preferred exactly when `class` is the full class.
pub proof fn lemma_first_class_wins(args: Seq<Seq<char>>, class: FlagClass)
    requires
        comes_first(args, class),
        occurs(args, other_class(class)),
    ensures
        resolved(args) == (FormatPrecedence {
            prefer_full: class == FlagClass::Full,
            conflict_detected: true,
        }),
{
    let (token, offset) = choose|token: int, offset: int|
        {
            &&& #[trigger] occurs_at(args, class, token, offset)
            &&& forall|t: int, o: int| #[trigger]
                occurs_at(args, other_class(class), t, o) ==> precedes(token, offset, t, o)
        };
    assert(occurs(args, class));
    if class == FlagClass::Simple && comes_first(args, FlagClass::Full) {
        let (ft, fo) = choose|ft: int, fo: int|
            {
                &&& #[trigger] occurs_at(args, FlagClass::Full, ft, fo)
                &&& forall|t: int, o: int| #[trigger]
                    occurs_at(args, FlagClass::Simple, t, o) ==> precedes(ft, fo, t, o)
            };
        assert(precedes(ft, fo, token, offset));
        assert(precedes(token, offset, ft, fo));
    }
}

/// Where at most one of the two classes occurs, no conflict is reported and
/// the preference keeps its default.
pub proof fn lemma_single_class_no_conflict(args: Seq<Seq<char>>)
    requires
        !occurs(args, FlagClass::Full) || !occurs(args, FlagClass::Simple),
    ensures
        resolved(args) == (FormatPrecedence { prefer_full: true, conflict_detected: false }),
{
}

/// Where both classes occur, exactly one of them comes first.
pub proof fn lemma_conflict_has_one_winner(args: Seq<Seq<char>>)
    requires
        occurs(args, FlagClass::Full),
        occurs(args, FlagClass::Simple),
    ensures
        comes_first(args, FlagClass::Full) != comes_first(args, FlagClass::Simple),
{
    let (ft, fo) = choose|t: int, o: int| occurs_at(args, FlagClass::Full, t, o);
    let (st, so) = choose|t: int, o: int| occurs_at(args, FlagClass::Simple, t, o);
    let f = lemma_earliest_exists(args, FlagClass::Full, ft, fo);
    let s = lemma_earliest_exists(args, FlagClass::Simple, st, so);
    lemma_first_positions_decide(args, f.0, f.1, s.0, s.1);
}

/// The order of positions is that of the single number
/// `token * radix + offset`, as long as every offset stays below `radix`.
pub proof fn lemma_positions_order_as_keys(
    token_a: int,
    offset_a: int,
    token_b: int,
    offset_b: int,
    radix: int,
)
    requires
        0 <= offset_a < radix,
        0 <= offset_b < radix,
    ensures
        precedes(token_a, offset_a, token_b, offset_b) <==> token_a * radix + offset_a < token_b
            * radix + offset_b,
{
    if token_a < token_b {
        assert((token_a + 1) * radix <= token_b * radix) by (nonlinear_arith)
            requires
                token_a + 1 <= token_b,
                radix > 0,
        ;
        assert((token_a + 1) * radix == token_a * radix + radix) by (nonlinear_arith);
    } else if token_b < token_a {
        assert((token_b + 1) * radix <= token_a * radix) by (nonlinear_arith)
            requires
                token_b + 1 <= token_a,
                radix > 0,
        ;
        assert((token_b + 1) * radix == token_b * radix + radix) by (nonlinear_arith);
    }
}

} // verus!
