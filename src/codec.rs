//! The compact payload attached to a moderator's interactive button: an
//! operation tag and the target submission, as a small JSON object that fits
//! the transport's 64-byte limit on button data.
use vstd::prelude::*;
use crate::ids::{parse_uuid, uuid_simple_of, uuid_simple_text};
use crate::text::{push_text, same_text};

verus! {

/// The operation a moderator's button carries.
#[derive(Clone, Copy, Debug, PartialEq, Eq, Structural)]
pub enum CallbackOperation {
    Approve,
    Decline,
    Ban,
    Cancel,
}

/// An operation and the submission it targets, if any.
#[derive(Clone, Copy, Debug, PartialEq, Eq, Structural)]
pub struct CallbackData {
    pub operation: CallbackOperation,
    pub document: Option<u128>,
}

/// A payload that is not the encoding of any `CallbackData`.
#[derive(Clone, Copy, Debug, PartialEq, Eq, Structural)]
pub enum DecodeError {
    Malformed,
}

/// The most characters (all ASCII, so bytes) a payload may hold.
pub const MAX_PAYLOAD: usize = 64;

/// The one-letter tag of an operation.
pub open spec fn tag_of(op: CallbackOperation) -> Seq<char> {
    match op {
        CallbackOperation::Approve => "A"@,
        CallbackOperation::Decline => "D"@,
        CallbackOperation::Ban => "B"@,
        CallbackOperation::Cancel => "C"@,
    }
}

/// `{"operation":"<tag>","document":`
pub open spec fn header_of(op: CallbackOperation) -> Seq<char> {
    "{\"operation\":\""@ + tag_of(op) + "\",\"document\":"@
}

/// `null`, or the identifier's simple rendering in double quotes.
pub open spec fn document_text(doc: Option<u128>) -> Seq<char> {
    match doc {
        None => "null"@,
        Some(id) => seq!['"'] + uuid_simple_of(id) + seq!['"'],
    }
}

/// The payload of `d`: `{"operation":"<tag>","document":<id or null>}`.
pub open spec fn encoded(d: CallbackData) -> Seq<char> {
    header_of(d.operation) + document_text(d.document) + seq!['}']
}

proof fn lemma_literals()
    ensures
        "{\"operation\":\""@ =~= seq!['{', '"', 'o', 'p', 'e', 'r', 'a', 't', 'i', 'o', 'n', '"', ':', '"'],
        "\",\"document\":"@ =~= seq!['"', ',', '"', 'd', 'o', 'c', 'u', 'm', 'e', 'n', 't', '"', ':'],
        "A"@ =~= seq!['A'],
        "D"@ =~= seq!['D'],
        "B"@ =~= seq!['B'],
        "C"@ =~= seq!['C'],
        "null"@ =~= seq!['n', 'u', 'l', 'l'],
        "null}"@ =~= seq!['n', 'u', 'l', 'l', '}'],
{
    reveal_strlit("{\"operation\":\"");
    reveal_strlit("\",\"document\":");
    reveal_strlit("A");
    reveal_strlit("D");
    reveal_strlit("B");
    reveal_strlit("C");
    reveal_strlit("null");
    reveal_strlit("null}");
}

proof fn lemma_layout(d: CallbackData)
    ensures
        tag_of(d.operation).len() > 0,
        header_of(d.operation).len() == 27 + tag_of(d.operation).len(),
        encoded(d).len() == header_of(d.operation).len() + document_text(d.document).len() + 1,
        encoded(d)[14] == tag_of(d.operation)[0],
        encoded(d).subrange(0, header_of(d.operation).len() as int) == header_of(d.operation),
        encoded(d).subrange(header_of(d.operation).len() as int, encoded(d).len() as int)
            == document_text(d.document) + seq!['}'],
        d.operation == CallbackOperation::Approve <==> tag_of(d.operation)[0] == 'A',
        d.operation == CallbackOperation::Decline <==> tag_of(d.operation)[0] == 'D',
        d.operation == CallbackOperation::Ban <==> tag_of(d.operation)[0] == 'B',
        d.operation == CallbackOperation::Cancel <==> tag_of(d.operation)[0] == 'C',
{
    lemma_literals();
    let h = header_of(d.operation);
    let e = encoded(d);
    assert(e =~= h + (document_text(d.document) + seq!['}']));
    assert(e.subrange(0, h.len() as int) =~= h);
    assert(e.subrange(h.len() as int, e.len() as int) =~= document_text(d.document) + seq!['}']);
    assert(e[14] == h[14]);
}

/// Appends the tag of an operation.
fn push_tag(s: &mut String, op: CallbackOperation)
    ensures
        final(s)@ == old(s)@ + tag_of(op),
{
    match op {
        CallbackOperation::Approve => push_text(s, "A"),
        CallbackOperation::Decline => push_text(s, "D"),
        CallbackOperation::Ban => push_text(s, "B"),
        CallbackOperation::Cancel => push_text(s, "C"),
    }
}

fn header_text(op: CallbackOperation) -> (r: String)
    ensures
        r@ == header_of(op),
{
    let mut s = String::new();
    push_text(&mut s, "{\"operation\":\"");
    push_tag(&mut s, op);
    push_text(&mut s, "\",\"document\":");
    assert(s@ =~= header_of(op));
    s
}

impl CallbackData {
    pub fn new(operation: CallbackOperation) -> (r: CallbackData)
        ensures
            r == (CallbackData { operation, document: None }),
    {
        CallbackData { operation, document: None }
    }

    /// The payload (see `encoded`); it never exceeds `MAX_PAYLOAD`.
    pub fn encode(&self) -> (r: String)
        ensures
            r@ == encoded(*self),
            r@.len() <= MAX_PAYLOAD,
    {
        proof {
            lemma_layout(*self);
            lemma_literals();
        }
        let mut s = header_text(self.operation);
        match self.document {
            None => push_text(&mut s, "null"),
            Some(id) => {
                push_text(&mut s, "\"");
                let t = uuid_simple_text(id);
                push_text(&mut s, t.as_str());
                push_text(&mut s, "\"");
                proof {
                    reveal_strlit("\"");
                }
            },
        }
        push_text(&mut s, "}");
        proof {
            reveal_strlit("}");
        }
        assert(s@ =~= encoded(*self));
        s
    }

    /// The data a payload encodes; `DecodeError` when it encodes none.
    pub fn decode(s: &str) -> (r: Result<CallbackData, DecodeError>)
        ensures
            match r {
                Ok(d) => encoded(d) == s@,
                Err(_) => forall|d: CallbackData| encoded(d) != s@,
            },
            forall|d: CallbackData| encoded(d) == s@ ==> r == Ok::<CallbackData, DecodeError>(d),
    {
        let op = match operation_at(s) {
            Some(op) => op,
            None => return Err(DecodeError::Malformed),
        };
        let header = header_text(op);
        let hl = header.as_str().unicode_len();
        let n = s.unicode_len();
        if n <= hl {
            assert forall|d: CallbackData| encoded(d) != s@ by {
                lemma_layout(d);
            }
            return Err(DecodeError::Malformed);
        }
        let rest = s.substring_char(hl, n);
        let document = match document_in(rest) {
            Some(doc) => doc,
            None => {
                assert forall|d: CallbackData| encoded(d) != s@ by {
                    lemma_layout(d);
                }
                return Err(DecodeError::Malformed);
            },
        };
        let cand = CallbackData { operation: op, document };
        assert forall|d: CallbackData| encoded(d) == s@ implies cand == d by {
            lemma_layout(d);
        }
        let enc = cand.encode();
        if same_text(enc.as_str(), s) {
            Ok(cand)
        } else {
            Err(DecodeError::Malformed)
        }
    }
}

/// The operation whose tag starts at the fixed tag position.
fn operation_at(s: &str) -> (r: Option<CallbackOperation>)
    ensures
        forall|d: CallbackData| encoded(d) == s@ ==> r == Some(d.operation),
{
    let n = s.unicode_len();
    if n < 15 {
        assert forall|d: CallbackData| encoded(d) != s@ by {
            lemma_layout(d);
        }
        return None;
    }
    let c = s.get_char(14);
    assert forall|d: CallbackData| encoded(d) == s@ implies (d.operation == CallbackOperation::Approve
        <==> c == 'A') && (d.operation == CallbackOperation::Decline <==> c == 'D') && (d.operation
        == CallbackOperation::Ban <==> c == 'B') && (d.operation == CallbackOperation::Cancel <==> c
        == 'C') by {
        lemma_layout(d);
    }
    if c == 'A' {
        Some(CallbackOperation::Approve)
    } else if c == 'D' {
        Some(CallbackOperation::Decline)
    } else if c == 'B' {
        Some(CallbackOperation::Ban)
    } else if c == 'C' {
        Some(CallbackOperation::Cancel)
    } else {
        None
    }
}

/// The target a payload's tail (after the header) names.
fn document_in(rest: &str) -> (r: Option<Option<u128>>)
    ensures
        forall|doc: Option<u128>| rest@ == document_text(doc) + seq!['}'] ==> r == Some(doc),
{
    proof {
        lemma_literals();
    }
    let rn = rest.unicode_len();
    if same_text(rest, "null}") {
        assert forall|doc: Option<u128>| rest@ == document_text(doc) + seq!['}'] implies doc is None by {
            if doc is Some {
                assert(rest@[0] == '"');
            }
        }
        return Some(None);
    }
    if rn < 3 {
        assert forall|doc: Option<u128>| rest@ != document_text(doc) + seq!['}'] by {
            if doc is None {
                assert(document_text(doc) + seq!['}'] =~= "null}"@);
            }
        }
        return None;
    }
    let mid = rest.substring_char(1, rn - 2);
    let parsed = parse_uuid(mid);
    assert forall|doc: Option<u128>| rest@ == document_text(doc) + seq!['}'] implies parsed == doc && doc is Some by {
        if doc is None {
            assert(document_text(doc) + seq!['}'] =~= "null}"@);
        } else {
            let id = doc->0;
            assert(mid@ =~= uuid_simple_of(id));
        }
    }
    match parsed {
        Some(id) => Some(Some(id)),
        None => None,
    }
}

} // verus!
