//! The transcript listing's pure part: ordering stored chat sessions by
//! creation time, most recent first. Reading the store itself is the
//! caller's side of the boundary.

use vstd::prelude::*;
use vstd::multiset::group_multiset_axioms;
use vstd::seq_lib::group_to_multiset_ensures;
use crate::models::ChatSession;

verus! {

/// Lexicographic order on character sequences, by code point — the order
/// the stored timestamps sort under.
pub open spec fn lex_leq(a: Seq<char>, b: Seq<char>) -> bool
    decreases a.len(),
{
    if a.len() == 0 {
        true
    } else if b.len() == 0 {
        false
    } else if (a[0] as int) < (b[0] as int) {
        true
    } else if (a[0] as int) > (b[0] as int) {
        false
    } else {
        lex_leq(a.drop_first(), b.drop_first())
    }
}

/// `lex_leq` is total: of any two sequences, one is below the other.
proof fn lemma_lex_total(a: Seq<char>, b: Seq<char>)
    ensures
        lex_leq(a, b) || lex_leq(b, a),
    decreases a.len(),
{
    if a.len() > 0 && b.len() > 0 && a[0] == b[0] {
        lemma_lex_total(a.drop_first(), b.drop_first());
    }
}

/// `lex_leq` is transitive.
proof fn lemma_lex_trans(a: Seq<char>, b: Seq<char>, c: Seq<char>)
    requires
        lex_leq(a, b),
        lex_leq(b, c),
    ensures
        lex_leq(a, c),
    decreases a.len(),
{
    if a.len() > 0 && b.len() > 0 && c.len() > 0 && a[0] == b[0] && b[0] == c[0] {
        lemma_lex_trans(a.drop_first(), b.drop_first(), c.drop_first());
    }
}

/// Whether `a` sorts at or below `b`: at or before it in a listing that
/// puts the most recent creation time first.
fn str_leq(a: &String, b: &String) -> (r: bool)
    ensures
        r == lex_leq(a@, b@),
{
    let a_str = a.as_str();
    let b_str = b.as_str();
    let a_len = a_str.unicode_len();
    let b_len = b_str.unicode_len();
    let mut i: usize = 0;
    proof {
        assert(a@.skip(0) =~= a@);
        assert(b@.skip(0) =~= b@);
    }
    while i < a_len && i < b_len
        invariant
            a_str@ == a@,
            b_str@ == b@,
            a_len == a@.len(),
            b_len == b@.len(),
            i <= a_len,
            i <= b_len,
            forall|j: int| 0 <= j < i ==> a@[j] == b@[j],
            lex_leq(a@, b@) == lex_leq(a@.skip(i as int), b@.skip(i as int)),
        decreases a_len - i,
    {
        let ca = a_str.get_char(i);
        let cb = b_str.get_char(i);
        let ca_code = ca as u32;
        let cb_code = cb as u32;
        proof {
            assert(a@.skip(i as int).len() > 0);
            assert(b@.skip(i as int).len() > 0);
            assert(a@.skip(i as int)[0] == a@[i as int]);
            assert(b@.skip(i as int)[0] == b@[i as int]);
            assert(a@.skip(i as int).drop_first() =~= a@.skip(i as int + 1));
            assert(b@.skip(i as int).drop_first() =~= b@.skip(i as int + 1));
        }
        if ca_code < cb_code {
            return true;
        }
        if ca_code > cb_code {
            return false;
        }
        i += 1;
    }
    proof {
        if i >= a_len {
            assert(a@.skip(i as int).len() == 0);
        } else {
            assert(b@.skip(i as int).len() == 0);
            assert(a@.skip(i as int).len() > 0);
        }
    }
    i >= a_len
}

/// Sorted most recent first: every later element's creation time is at
/// or below every earlier element's.
pub open spec fn sorted_desc(v: Seq<ChatSession>) -> bool {
    forall|i: int, j: int|
        0 <= i < j < v.len() ==> lex_leq(#[trigger] v[j].created_at@, #[trigger] v[i].created_at@)
}

/// Orders stored sessions by creation time, most recent first; the
/// result holds exactly the sessions given, rearranged.
pub fn sort_sessions(sessions: Vec<ChatSession>) -> (r: Vec<ChatSession>)
    ensures
        sorted_desc(r@),
        r@.to_multiset() == sessions@.to_multiset(),
        r@.len() == sessions@.len(),
{
    broadcast use group_to_multiset_ensures;
    broadcast use group_multiset_axioms;

    let ghost orig = sessions@;
    let mut rest = sessions;
    let mut out: Vec<ChatSession> = Vec::new();
    while rest.len() > 0
        invariant
            out@.to_multiset().add(rest@.to_multiset()) == orig.to_multiset(),
            out@.len() + rest@.len() == orig.len(),
            sorted_desc(out@),
            forall|i: int, j: int|
                0 <= i < out@.len() && 0 <= j < rest@.len() ==> lex_leq(
                    #[trigger] rest@[j].created_at@,
                    #[trigger] out@[i].created_at@,
                ),
        decreases rest@.len(),
    {
        let mut best: usize = 0;
        let mut k: usize = 1;
        proof {
            lemma_lex_total(rest@[0].created_at@, rest@[0].created_at@);
        }
        while k < rest.len()
            invariant
                rest@.len() > 0,
                best < k,
                k <= rest@.len(),
                forall|j: int| 0 <= j < k ==> lex_leq(
                    #[trigger] rest@[j].created_at@,
                    rest@[best as int].created_at@,
                ),
            decreases rest@.len() - k,
        {
            if !str_leq(&rest[k].created_at, &rest[best].created_at) {
                proof {
                    lemma_lex_total(rest@[k as int].created_at@, rest@[best as int].created_at@);
                    assert forall|j: int| 0 <= j < k + 1 implies lex_leq(
                        #[trigger] rest@[j].created_at@,
                        rest@[k as int].created_at@,
                    ) by {
                        if j < k {
                            lemma_lex_trans(
                                rest@[j].created_at@,
                                rest@[best as int].created_at@,
                                rest@[k as int].created_at@,
                            );
                        } else {
                            lemma_lex_total(
                                rest@[j].created_at@,
                                rest@[j].created_at@,
                            );
                        }
                    }
                }
                best = k;
            }
            k += 1;
        }
        let ghost rest_before = rest@;
        let ghost out_before = out@;
        let picked = rest.remove(best);
        out.push(picked);
        proof {
            rest_before.to_multiset_ensures();
            out_before.to_multiset_ensures();
            assert(rest_before.contains(rest_before[best as int]));
            assert(rest@.to_multiset() == rest_before.to_multiset().remove(
                rest_before[best as int],
            ));
            assert(out@.to_multiset() == out_before.to_multiset().insert(
                rest_before[best as int],
            ));
            assert(out@.to_multiset().add(rest@.to_multiset()) =~= orig.to_multiset());
            assert(out@[out@.len() - 1] == rest_before[best as int]);
            assert forall|i: int, j: int| 0 <= i < j < out@.len() implies lex_leq(
                #[trigger] out@[j].created_at@,
                #[trigger] out@[i].created_at@,
            ) by {
                if j == out@.len() - 1 {
                    assert(out@[j] == rest_before[best as int]);
                }
            }
            assert forall|i: int, j: int|
                0 <= i < out@.len() && 0 <= j < rest@.len() implies lex_leq(
                #[trigger] rest@[j].created_at@,
                #[trigger] out@[i].created_at@,
            ) by {
                let jj = if j < best { j } else { j + 1 };
                assert(rest@[j] == rest_before[jj]);
                if i < out@.len() - 1 {
                } else {
                    assert(out@[i] == rest_before[best as int]);
                }
            }
        }
    }
    out
}

/// The outcome of deleting a stored session: a session whose file is
/// absent is reported as not found and nothing is removed; otherwise the
/// removal's own error, if any, is passed through.
pub fn delete_outcome(found: bool, remove_error: Option<String>) -> (r: Result<(), String>)
    ensures
        !found ==> (r matches Err(m) && m@ == "Sesion no encontrada"@),
        found && remove_error is None ==> r is Ok,
        found ==> (remove_error matches Some(e) ==> r matches Err(m) && m@ == e@),
{
    if !found {
        Result::Err("Sesion no encontrada".to_owned())
    } else {
        match remove_error {
            Option::Some(e) => Result::Err(e),
            Option::None => Result::Ok(()),
        }
    }
}

} // verus!
