use crate::semver_calls::{parsed_req, raw_view, semver_parse_req};
use crate::version::{ParseError, Version};
use vstd::prelude::*;

verus! {

/// The relational operator of a requirement comparator.
#[derive(Clone, Copy, Debug, PartialEq, Eq, Structural)]
pub enum Op {
    Exact,
    Greater,
    GreaterEq,
    Less,
    LessEq,
    Tilde,
    Caret,
    Wildcard,
}

/// One comparator: an operator and a partial version (`1`, `1.2` or `1.2.3`).
#[derive(Clone, Copy, Debug, PartialEq, Eq, Structural)]
pub struct Comparator {
    pub op: Op,
    pub major: u64,
    pub minor: Option<u64>,
    pub patch: Option<u64>,
}

/// A conjunction of comparators; a version satisfies it iff it satisfies each.
#[derive(Clone, Debug, PartialEq, Eq)]
pub struct VersionReq {
    pub comparators: Vec<Comparator>,
}

impl View for VersionReq {
    type V = Seq<Comparator>;

    open spec fn view(&self) -> Seq<Comparator> {
        self.comparators@
    }
}

pub open spec fn digit_char(d: nat) -> char {
    if d == 0 {
        '0'
    } else if d == 1 {
        '1'
    } else if d == 2 {
        '2'
    } else if d == 3 {
        '3'
    } else if d == 4 {
        '4'
    } else if d == 5 {
        '5'
    } else if d == 6 {
        '6'
    } else if d == 7 {
        '7'
    } else if d == 8 {
        '8'
    } else {
        '9'
    }
}

/// The decimal digits of `n`, most significant first, without leading zeros.
pub open spec fn decimal(n: nat) -> Seq<char>
    decreases n,
{
    if n < 10 {
        seq![digit_char(n)]
    } else {
        decimal(n / 10).push(digit_char(n % 10))
    }
}

pub open spec fn op_text(op: Op) -> Seq<char> {
    match op {
        Op::Exact => seq!['='],
        Op::Greater => seq!['>'],
        Op::GreaterEq => seq!['>', '='],
        Op::Less => seq!['<'],
        Op::LessEq => seq!['<', '='],
        Op::Tilde => seq!['~'],
        Op::Caret => seq![],
        Op::Wildcard => seq![],
    }
}

/// `.*` after the last given field of a wildcard comparator, nothing otherwise.
pub open spec fn star_text(op: Op) -> Seq<char> {
    if op == Op::Wildcard {
        seq!['.', '*']
    } else {
        seq![]
    }
}

/// A comparator as a manifest writes it: caret and wildcard carry no sigil.
pub open spec fn comparator_text(c: Comparator) -> Seq<char> {
    op_text(c.op) + decimal(c.major as nat) + match c.minor {
        Some(minor) => seq!['.'] + decimal(minor as nat) + match c.patch {
            Some(patch) => seq!['.'] + decimal(patch as nat),
            None => star_text(c.op),
        },
        None => star_text(c.op),
    }
}

/// The first `n` comparators, joined by `", "`.
pub open spec fn joined_text(cs: Seq<Comparator>, n: nat) -> Seq<char>
    decreases n,
{
    if n == 0 {
        seq![]
    } else if n == 1 {
        comparator_text(cs[0])
    } else {
        joined_text(cs, (n - 1) as nat) + seq![',', ' '] + comparator_text(cs[n - 1])
    }
}

/// The text of a requirement; the empty requirement is `*`.
pub open spec fn req_text(cs: Seq<Comparator>) -> Seq<char> {
    if cs.len() == 0 {
        seq!['*']
    } else {
        joined_text(cs, cs.len())
    }
}

fn digit_str(d: u64) -> (r: &'static str)
    requires
        d < 10,
    ensures
        r@ == seq![digit_char(d as nat)],
{
    if d == 0 {
        proof { reveal_strlit("0"); }
        "0"
    } else if d == 1 {
        proof { reveal_strlit("1"); }
        "1"
    } else if d == 2 {
        proof { reveal_strlit("2"); }
        "2"
    } else if d == 3 {
        proof { reveal_strlit("3"); }
        "3"
    } else if d == 4 {
        proof { reveal_strlit("4"); }
        "4"
    } else if d == 5 {
        proof { reveal_strlit("5"); }
        "5"
    } else if d == 6 {
        proof { reveal_strlit("6"); }
        "6"
    } else if d == 7 {
        proof { reveal_strlit("7"); }
        "7"
    } else if d == 8 {
        proof { reveal_strlit("8"); }
        "8"
    } else {
        proof { reveal_strlit("9"); }
        "9"
    }
}

pub(crate) fn push_decimal(s: &mut String, n: u64)
    ensures
        final(s)@ == old(s)@ + decimal(n as nat),
    decreases n,
{
    if n >= 10 {
        push_decimal(s, n / 10);
    }
    s.append(digit_str(n % 10));
    assert(s@ =~= old(s)@ + decimal(n as nat));
}

fn push_op(s: &mut String, op: Op)
    ensures
        final(s)@ == old(s)@ + op_text(op),
{
    let t: &str = match op {
        Op::Exact => {
            proof { reveal_strlit("="); }
            "="
        },
        Op::Greater => {
            proof { reveal_strlit(">"); }
            ">"
        },
        Op::GreaterEq => {
            proof { reveal_strlit(">="); }
            ">="
        },
        Op::Less => {
            proof { reveal_strlit("<"); }
            "<"
        },
        Op::LessEq => {
            proof { reveal_strlit("<="); }
            "<="
        },
        Op::Tilde => {
            proof { reveal_strlit("~"); }
            "~"
        },
        Op::Caret | Op::Wildcard => {
            proof { reveal_strlit(""); }
            ""
        },
    };
    s.append(t);
    assert(s@ =~= old(s)@ + op_text(op));
}

fn push_star(s: &mut String, op: Op)
    ensures
        final(s)@ == old(s)@ + star_text(op),
{
    if op == Op::Wildcard {
        proof { reveal_strlit(".*"); }
        s.append(".*");
    } else {
        assert(s@ =~= s@ + star_text(op));
    }
}

fn push_comparator(s: &mut String, c: &Comparator)
    ensures
        final(s)@ == old(s)@ + comparator_text(*c),
{
    proof { reveal_strlit("."); }
    push_op(s, c.op);
    push_decimal(s, c.major);
    match c.minor {
        Some(minor) => {
            s.append(".");
            push_decimal(s, minor);
            match c.patch {
                Some(patch) => {
                    s.append(".");
                    push_decimal(s, patch);
                },
                None => push_star(s, c.op),
            }
        },
        None => push_star(s, c.op),
    }
    assert(s@ =~= old(s)@ + comparator_text(*c));
}

/// Renders `req` as a manifest writes it: caret and wildcard comparators
/// without a sigil, the others with theirs, joined by `", "`; `*` when empty.
pub fn req_into_string(req: &VersionReq) -> (r: String)
    ensures
        r@ == req_text(req@),
{
    let mut s = String::new();
    let n = req.comparators.len();
    if n == 0 {
        proof { reveal_strlit("*"); }
        s.append("*");
        assert(s@ =~= req_text(req@));
        return s;
    }
    let mut i: usize = 0;
    while i < n
        invariant
            n == req@.len(),
            i <= n,
            s@ == joined_text(req@, i as nat),
        decreases n - i,
    {
        let ghost before = s@;
        if i > 0 {
            proof { reveal_strlit(", "); }
            s.append(", ");
            assert(s@ =~= before + seq![',', ' ']);
        }
        push_comparator(&mut s, &req.comparators[i]);
        assert(s@ =~= joined_text(req@, (i + 1) as nat));
        i += 1;
    }
    s
}

/// The shortest caret comparator pinned to `v`: `1.0.0` gives `1`, `1.1.0`
/// gives `1.1` and `1.0.1` stays `1.0.1`.
pub open spec fn min_comparator(v: Version) -> Comparator {
    Comparator {
        op: Op::Caret,
        major: v.major,
        minor: if v.minor == 0 && v.patch == 0 {
            None
        } else {
            Some(v.minor)
        },
        patch: if v.patch == 0 {
            None
        } else {
            Some(v.patch)
        },
    }
}

/// The minimal requirement that admits `ver` and what is compatible with it.
pub fn to_min_req(ver: &Version) -> (r: VersionReq)
    ensures
        r@ == seq![min_comparator(*ver)],
{
    let minor = if ver.minor == 0 && ver.patch == 0 {
        None
    } else {
        Some(ver.minor)
    };
    let patch = if ver.patch == 0 {
        None
    } else {
        Some(ver.patch)
    };
    let c = Comparator { op: Op::Caret, major: ver.major, minor, patch };
    let comparators = vec![c];
    assert(comparators@ =~= seq![min_comparator(*ver)]);
    VersionReq { comparators }
}

/// The comparator a parsed entry stands for, once its operator is known.
pub open spec fn comparator_of(t: (Option<Op>, u64, Option<u64>, Option<u64>, Seq<char>)) -> Comparator {
    Comparator { op: t.0.unwrap(), major: t.1, minor: t.2, patch: t.3 }
}

/// A requirement from parsed comparators: an operator this library does not
/// model is refused first, then any pre-release text.
pub open spec fn req_from_parts(raw: Seq<(Option<Op>, u64, Option<u64>, Option<u64>, Seq<char>)>) -> Result<
    Seq<Comparator>,
    ParseError,
> {
    if exists|i: int| 0 <= i < raw.len() && (#[trigger] raw[i]).0 is None {
        Err(ParseError::UnsupportedOperator)
    } else if exists|i: int| 0 <= i < raw.len() && (#[trigger] raw[i]).4.len() > 0 {
        Err(ParseError::PreRelease)
    } else {
        Ok(raw.map_values(|t: (Option<Op>, u64, Option<u64>, Option<u64>, Seq<char>)| comparator_of(t)))
    }
}

/// What parsing a requirement text gives, from what semver made of it.
pub open spec fn req_of_text(s: Seq<char>) -> Result<Seq<Comparator>, ParseError> {
    match parsed_req(s) {
        Some(raw) => req_from_parts(raw),
        None => Err(ParseError::Malformed),
    }
}

/// The view of a parse result.
pub open spec fn req_result_view(r: Result<VersionReq, ParseError>) -> Result<Seq<Comparator>, ParseError> {
    match r {
        Ok(q) => Ok(q@),
        Err(e) => Err(e),
    }
}

impl VersionReq {
    /// Builds a requirement from parsed comparators (operator, major, minor,
    /// patch, pre-release text).
    pub fn from_parts(raw: &Vec<(Option<Op>, u64, Option<u64>, Option<u64>, String)>) -> (r: Result<
        VersionReq,
        ParseError,
    >)
        ensures
            req_result_view(r) == req_from_parts(raw_view(raw@)),
    {
        let ghost rv = raw_view(raw@);
        let mut comparators: Vec<Comparator> = Vec::new();
        let mut unsupported = false;
        let mut pre = false;
        let mut i: usize = 0;
        while i < raw.len()
            invariant
                rv == raw_view(raw@),
                rv.len() == raw@.len(),
                i <= raw@.len(),
                unsupported == exists|j: int| 0 <= j < i && (#[trigger] rv[j]).0 is None,
                pre == exists|j: int| 0 <= j < i && (#[trigger] rv[j]).4.len() > 0,
                !unsupported ==> comparators@.len() == i,
                !unsupported ==> forall|j: int| 0 <= j < i ==> comparators@[j] == comparator_of(
                    #[trigger] rv[j],
                ),
            decreases raw.len() - i,
        {
            let t = &raw[i];
            assert(rv[i as int] == (t.0, t.1, t.2, t.3, t.4@));
            if t.4.as_str().is_empty() {
            } else {
                pre = true;
            }
            match t.0 {
                Some(op) => {
                    comparators.push(Comparator { op, major: t.1, minor: t.2, patch: t.3 });
                },
                None => {
                    unsupported = true;
                },
            }
            i += 1;
        }
        if unsupported {
            Err(ParseError::UnsupportedOperator)
        } else if pre {
            Err(ParseError::PreRelease)
        } else {
            let r = VersionReq { comparators };
            assert(r@ =~= rv.map_values(
                |t: (Option<Op>, u64, Option<u64>, Option<u64>, Seq<char>)| comparator_of(t),
            ));
            Ok(r)
        }
    }
}

/// Parses a requirement text: comma-separated comparators, caret by default.
pub fn parse_req(s: &str) -> (r: Result<VersionReq, ParseError>)
    ensures
        req_result_view(r) == req_of_text(s@),
{
    match semver_parse_req(s) {
        Ok(raw) => VersionReq::from_parts(&raw),
        Err(_) => Err(ParseError::Malformed),
    }
}

/// The text of the minimal requirement of `v`: its major, then `.minor` where
/// minor or patch is set, then `.patch` where patch is set.
pub open spec fn min_req_text(v: Version) -> Seq<char> {
    decimal(v.major as nat) + if v.minor == 0 && v.patch == 0 {
        Seq::<char>::empty()
    } else {
        seq!['.'] + decimal(v.minor as nat) + if v.patch == 0 {
            Seq::<char>::empty()
        } else {
            seq!['.'] + decimal(v.patch as nat)
        }
    }
}

pub open spec fn is_digit(c: char) -> bool {
    '0' <= c && c <= '9'
}

proof fn lemma_decimal_digits(n: nat)
    ensures
        forall|i: int| 0 <= i < decimal(n).len() ==> is_digit(#[trigger] decimal(n)[i]),
    decreases n,
{
    assert(is_digit(digit_char(n % 10)));
    if n >= 10 {
        lemma_decimal_digits(n / 10);
        let d = decimal(n / 10).push(digit_char(n % 10));
        assert forall|i: int| 0 <= i < d.len() implies is_digit(d[i]) by {
            if i < d.len() - 1 {
                assert(d[i] == decimal(n / 10)[i]);
            }
        }
    } else {
        assert(is_digit(digit_char(n)));
    }
}

/// The minimal requirement of a version serializes to its leading significant
/// fields written bare, so the text never holds a caret.
pub proof fn lemma_min_req_text(v: Version)
    ensures
        req_text(seq![min_comparator(v)]) == min_req_text(v),
        !req_text(seq![min_comparator(v)]).contains('^'),
{
    let t = req_text(seq![min_comparator(v)]);
    assert(t =~= min_req_text(v));
    lemma_decimal_digits(v.major as nat);
    lemma_decimal_digits(v.minor as nat);
    lemma_decimal_digits(v.patch as nat);
    assert forall|i: int| 0 <= i < t.len() implies t[i] != '^' by {
        assert(t[i] == '.' || is_digit(t[i]));
    }
}

} // verus!
