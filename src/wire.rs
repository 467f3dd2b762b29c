//! Inbound actions: the decimal form of message ids and the decoding of a
//! client frame into an action.

use vstd::prelude::*;

verus! {

/// The ASCII decimal digits of `n`, most significant first, without leading
/// zeros.
pub open spec fn decimal_text(n: nat) -> Seq<u8>
    decreases n,
{
    if n < 10 {
        seq![(48 + n) as u8]
    } else {
        decimal_text(n / 10).push((48 + n % 10) as u8)
    }
}

pub open spec fn is_digit(b: u8) -> bool {
    48 <= b <= 57
}

/// The number that a run of ASCII digits denotes.
pub open spec fn digits_value(s: Seq<u8>) -> nat
    decreases s.len(),
{
    if s.len() == 0 {
        0
    } else {
        digits_value(s.drop_last()) * 10 + (s.last() - 48) as nat
    }
}

/// Digits only, at least one, and no leading zero unless the number is 0.
pub open spec fn canonical(s: Seq<u8>) -> bool {
    &&& s.len() >= 1
    &&& forall|i: int| 0 <= i < s.len() ==> is_digit(#[trigger] s[i])
    &&& (s.len() == 1 || s[0] != 48)
}

proof fn lemma_single_digit(s: Seq<u8>)
    requires
        s.len() == 1,
        is_digit(s[0]),
    ensures
        digits_value(s) == (s[0] - 48) as nat,
{
    assert(s.drop_last() =~= Seq::<u8>::empty());
    assert(digits_value(s.drop_last()) == 0);
    assert(s.last() == s[0]);
}

proof fn lemma_decimal_canonical(n: nat)
    ensures
        canonical(decimal_text(n)),
        digits_value(decimal_text(n)) == n,
    decreases n,
{
    if n < 10 {
        lemma_single_digit(decimal_text(n));
    } else {
        let d = decimal_text(n / 10);
        let s = decimal_text(n);
        lemma_decimal_canonical(n / 10);
        assert(s.drop_last() =~= d);
        if d.len() == 1 {
            lemma_single_digit(d);
        }
        assert forall|i: int| 0 <= i < s.len() implies is_digit(#[trigger] s[i]) by {
            if i < d.len() {
                assert(s[i] == d[i]);
            }
        }
        assert(s[0] == d[0]);
    }
}

proof fn lemma_leading_positive(s: Seq<u8>)
    requires
        s.len() >= 1,
        forall|i: int| 0 <= i < s.len() ==> is_digit(#[trigger] s[i]),
        s[0] != 48,
    ensures
        digits_value(s) >= 1,
    decreases s.len(),
{
    if s.len() == 1 {
        lemma_single_digit(s);
    } else {
        let p = s.drop_last();
        assert(p[0] == s[0]);
        assert forall|i: int| 0 <= i < p.len() implies is_digit(#[trigger] p[i]) by {
            assert(p[i] == s[i]);
        }
        lemma_leading_positive(p);
    }
}

proof fn lemma_canonical_round_trip(s: Seq<u8>)
    requires
        canonical(s),
    ensures
        decimal_text(digits_value(s)) == s,
    decreases s.len(),
{
    if s.len() == 1 {
        lemma_single_digit(s);
        assert(decimal_text(digits_value(s)) =~= s);
    } else {
        let p = s.drop_last();
        assert(p[0] == s[0]);
        assert forall|i: int| 0 <= i < p.len() implies is_digit(#[trigger] p[i]) by {
            assert(p[i] == s[i]);
        }
        lemma_leading_positive(p);
        lemma_canonical_round_trip(p);
        let a = digits_value(p);
        let d = (s.last() - 48) as nat;
        assert(is_digit(s[s.len() - 1]));
        assert(d < 10);
        let v = digits_value(s);
        assert(v == a * 10 + d);
        assert(v / 10 == a && v % 10 == d && v >= 10) by (nonlinear_arith)
            requires
                v == a * 10 + d,
                d < 10,
                a >= 1,
        ;
        assert(decimal_text(v) =~= s);
    }
}

proof fn lemma_prefix_monotone(s: Seq<u8>, i: int, j: int)
    requires
        0 <= i <= j <= s.len(),
    ensures
        digits_value(s.take(i)) <= digits_value(s.take(j)),
    decreases j - i,
{
    if i < j {
        lemma_prefix_monotone(s, i, j - 1);
        assert(s.take(j).drop_last() =~= s.take(j - 1));
    }
}

/// Decimal ids are one to one: equal texts come from equal numbers.
pub proof fn lemma_decimal_injective(a: nat, b: nat)
    ensures
        decimal_text(a) == decimal_text(b) <==> a == b,
{
    lemma_decimal_canonical(a);
    lemma_decimal_canonical(b);
}

/// Reads a message id: the decimal digits of a `u64`, as the id is written
/// on the wire. Anything else (a sign, a leading zero, other characters, a
/// value out of range, empty text) is refused.
pub fn parse_id(text: &[u8]) -> (r: Option<u64>)
    ensures
        r matches Some(n) ==> text@ == decimal_text(n as nat),
        r is None ==> forall|n: u64| text@ != decimal_text(n as nat),
{
    let mut v: u64 = 0;
    let mut i: usize = 0;
    while i < text.len()
        invariant
            0 <= i <= text.len(),
            forall|j: int| 0 <= j < i ==> is_digit(#[trigger] text@[j]),
            v == digits_value(text@.take(i as int)),
        decreases text.len() - i,
    {
        let b = text[i];
        if b < 48 || b > 57 {
            proof {
                assert forall|n: u64| text@ != decimal_text(n as nat) by {
                    lemma_decimal_canonical(n as nat);
                    if text@ == decimal_text(n as nat) {
                        assert(is_digit(text@[i as int]));
                    }
                }
            }
            return None;
        }
        let d: u64 = (b - 48) as u64;
        assert(text@.take(i + 1).drop_last() =~= text@.take(i as int));
        if v > (u64::MAX - d) / 10 {
            proof {
                assert(v * 10 + d > u64::MAX) by (nonlinear_arith)
                    requires
                        v > (u64::MAX - d) / 10,
                        d <= 9,
                ;
                assert forall|n: u64| text@ != decimal_text(n as nat) by {
                    lemma_decimal_canonical(n as nat);
                    lemma_prefix_monotone(text@, i + 1, text@.len() as int);
                    assert(text@.take(text@.len() as int) =~= text@);
                }
            }
            return None;
        }
        assert(v * 10 + d <= u64::MAX) by (nonlinear_arith)
            requires
                v <= (u64::MAX - d) / 10,
                d <= 9,
        ;
        v = v * 10 + d;
        i = i + 1;
    }
    assert(text@.take(text@.len() as int) =~= text@);
    if text.len() == 0 || (text.len() > 1 && text[0] == 48) {
        proof {
            assert forall|n: u64| text@ != decimal_text(n as nat) by {
                lemma_decimal_canonical(n as nat);
            }
        }
        return None;
    }
    proof {
        lemma_canonical_round_trip(text@);
    }
    Some(v)
}

/// A client frame as it arrives: the action's kind, and the fields that
/// were present.
pub struct Frame {
    pub kind: String,
    pub id: Option<Vec<u8>>,
    pub content: Option<String>,
}

/// What a client asks for.
pub enum Action {
    Post { content: String },
    Edit { id: u64, content: String },
    Delete { id: u64 },
}

/// Why a frame was discarded.
#[derive(Clone, Copy, Debug, PartialEq, Eq, Structural)]
pub enum DecodeError {
    UnknownKind,
    MissingField,
    MalformedId,
}

pub open spec fn kind_post() -> Seq<char> {
    seq!['m', 'e', 's', 's', 'a', 'g', 'e']
}

pub open spec fn kind_edit() -> Seq<char> {
    seq!['e', 'd', 'i', 't']
}

pub open spec fn kind_delete() -> Seq<char> {
    seq!['d', 'e', 'l', 'e', 't', 'e']
}

/// Whether `id` is present and the decimal text of some `u64`.
pub open spec fn id_well_formed(id: Option<Vec<u8>>) -> bool {
    id matches Some(b) && exists|n: u64| b@ == decimal_text(n as nat)
}

/// Turns a frame into an action. A `message` needs `content`, an `edit`
/// needs `id` and `content`, a `delete` needs `id`; an id must be the decimal
/// text of a `u64`.
pub fn decode(frame: Frame) -> (r: Result<Action, DecodeError>)
    ensures
        match r {
            Ok(Action::Post { content }) => frame.kind@ == kind_post() && frame.content == Some(
                content,
            ),
            Ok(Action::Edit { id, content }) => {
                &&& frame.kind@ == kind_edit()
                &&& frame.id matches Some(b) && b@ == decimal_text(id as nat)
                &&& frame.content == Some(content)
            },
            Ok(Action::Delete { id }) => {
                &&& frame.kind@ == kind_delete()
                &&& frame.id matches Some(b) && b@ == decimal_text(id as nat)
            },
            Err(DecodeError::UnknownKind) => frame.kind@ != kind_post() && frame.kind@
                != kind_edit() && frame.kind@ != kind_delete(),
            Err(DecodeError::MissingField) => {
                ||| frame.kind@ == kind_post() && frame.content is None
                ||| frame.kind@ == kind_edit() && (frame.id is None || frame.content is None)
                ||| frame.kind@ == kind_delete() && frame.id is None
            },
            Err(DecodeError::MalformedId) => {
                &&& frame.kind@ == kind_edit() && frame.content is Some || frame.kind@
                    == kind_delete()
                &&& frame.id is Some
                &&& !id_well_formed(frame.id)
            },
        },
{
    let post = "message".to_owned();
    let edit = "edit".to_owned();
    let delete = "delete".to_owned();
    proof {
        reveal_strlit("message");
        reveal_strlit("edit");
        reveal_strlit("delete");
        assert(post@ =~= kind_post());
        assert(edit@ =~= kind_edit());
        assert(delete@ =~= kind_delete());
    }
    let Frame { kind, id, content } = frame;
    if kind == post {
        match content {
            Some(c) => Ok(Action::Post { content: c }),
            None => Err(DecodeError::MissingField),
        }
    } else if kind == edit {
        match (id, content) {
            (Some(b), Some(c)) => match parse_id(b.as_slice()) {
                Some(n) => Ok(Action::Edit { id: n, content: c }),
                None => Err(DecodeError::MalformedId),
            },
            _ => Err(DecodeError::MissingField),
        }
    } else if kind == delete {
        match id {
            Some(b) => match parse_id(b.as_slice()) {
                Some(n) => Ok(Action::Delete { id: n }),
                None => Err(DecodeError::MalformedId),
            },
            None => Err(DecodeError::MissingField),
        }
    } else {
        Err(DecodeError::UnknownKind)
    }
}

} // verus!
