use vstd::prelude::*;

verus! {

/// Characters with the Unicode `White_Space` property.
pub open spec fn is_white(c: char) -> bool {
    let u = c as u32;
    (0x09 <= u && u <= 0x0d) || u == 0x20 || u == 0x85 || u == 0xa0 || u == 0x1680 || (0x2000
        <= u && u <= 0x200a) || u == 0x2028 || u == 0x2029 || u == 0x202f || u == 0x205f || u
        == 0x3000
}

/// A text that is empty or holds whitespace only.
pub open spec fn is_blank(s: Seq<char>) -> bool {
    forall|i: int| 0 <= i < s.len() ==> is_white(#[trigger] s[i])
}

/// What a status message becomes when stored: blank text is no message.
pub open spec fn normalize_spec(m: Option<Seq<char>>) -> Option<Seq<char>> {
    match m {
        Some(t) => if is_blank(t) {
            None
        } else {
            Some(t)
        },
        None => None,
    }
}

/// A stored message is never blank.
pub open spec fn message_ok(m: Option<Seq<char>>) -> bool {
    match m {
        Some(t) => !is_blank(t),
        None => true,
    }
}

/// The view of an optional owned text.
pub open spec fn opt_text(m: Option<String>) -> Option<Seq<char>> {
    match m {
        Some(t) => Some(t@),
        None => None,
    }
}

/// `r` is `s` with all its leading and trailing whitespace removed.
pub open spec fn trimmed_from(r: Seq<char>, s: Seq<char>) -> bool {
    &&& exists|i: int, j: int|
        0 <= i <= j <= s.len() && r == s.subrange(i, j) && is_blank(s.subrange(0, i)) && is_blank(
            s.subrange(j, s.len() as int),
        )
    &&& r.len() > 0 ==> !is_white(r[0]) && !is_white(r[r.len() - 1])
}

/// Relies on `str::trim`: the result is the input with its leading and
/// trailing `White_Space` characters removed.
#[verifier::external_body]
fn trim(s: &str) -> (r: &str)
    ensures
        trimmed_from(r@, s@),
{
    s.trim()
}

/// Tells whether a text is empty or whitespace only.
pub fn is_blank_text(s: &str) -> (r: bool)
    ensures
        r == is_blank(s@),
{
    let t = trim(s);
    let r = t.is_empty();
    proof {
        let (i, j) = choose|i: int, j: int| t@ == s@.subrange(i, j) &&
            0 <= i <= j <= s@.len() && is_blank(s@.subrange(0, i))
                && is_blank(s@.subrange(j, s@.len() as int));
        if r {
            assert forall|k: int| 0 <= k < s@.len() implies is_white(#[trigger] s@[k]) by {
                if k < i {
                    assert(s@.subrange(0, i)[k] == s@[k]);
                } else {
                    assert(s@.subrange(j, s@.len() as int)[k - j] == s@[k]);
                }
            }
        } else {
            assert(t@[0] == s@[i]);
        }
    }
    r
}

/// Stores a message as the record keeps it: blank text becomes no message.
pub fn normalize_message(m: Option<String>) -> (r: Option<String>)
    ensures
        opt_text(r) == normalize_spec(opt_text(m)),
        message_ok(opt_text(r)),
{
    match m {
        Some(t) => {
            if is_blank_text(t.as_str()) {
                None
            } else {
                Some(t)
            }
        },
        None => None,
    }
}

/// Normalising a message twice is normalising it once.
pub proof fn lemma_normalize_idempotent(m: Option<Seq<char>>)
    ensures
        normalize_spec(normalize_spec(m)) == normalize_spec(m),
        message_ok(normalize_spec(m)),
        message_ok(m) ==> normalize_spec(m) == m,
{
}

} // verus!
