//! The size estimator's computation step. The surrounding worker walks a
//! candidate's subtree for its byte size; the logic here turns that byte
//! count into the `[X.XXMb]` annotation — megabytes rounded to two decimal
//! places — and promotes the candidate from `Searched` to `Live`. When the
//! size walk fails the worker simply never calls in, and the candidate
//! stays `Searched`.

use vstd::prelude::*;
use vstd::string::StringExecFns;
use crate::store::{store_advances, CandidateStore};

verus! {

/// The decimal digit character for `d` (meaningful for `d < 10`).
pub open spec fn digit_char(d: nat) -> char {
    if d == 0 {
        '0'
    } else if d == 1 {
        '1'
    } else if d == 2 {
        '2'
    } else if d == 3 {
        '3'
    } else if d == 4 {
        '4'
    } else if d == 5 {
        '5'
    } else if d == 6 {
        '6'
    } else if d == 7 {
        '7'
    } else if d == 8 {
        '8'
    } else {
        '9'
    }
}

/// The decimal digits of `n`, most significant first, no leading zeros
/// (a single `'0'` for zero).
pub open spec fn spec_dec(n: nat) -> Seq<char>
    decreases n,
{
    if n < 10 {
        seq![digit_char(n)]
    } else {
        spec_dec(n / 10).push(digit_char(n % 10))
    }
}

/// A fraction of a hundred as exactly two digits (meaningful for
/// `n < 100`).
pub open spec fn spec_frac2(n: nat) -> Seq<char> {
    if n < 10 {
        seq!['0', digit_char(n)]
    } else {
        spec_dec(n)
    }
}

/// The annotation for a subtree of `bytes` bytes: its size in megabytes
/// (mebibytes of 1048576 bytes), rounded half-up to two decimal places and
/// written `[X.XXMb]`.
pub open spec fn spec_size_annotation(bytes: nat) -> Seq<char> {
    let hundredths = (bytes * 100 + 524288) / 1048576;
    "["@ + spec_dec(hundredths / 100) + "."@ + spec_frac2(hundredths % 100) + "Mb]"@
}

/// The one-character string for the decimal digit `d`.
fn digit_str(d: u128) -> (r: &'static str)
    requires
        d < 10,
    ensures
        r@ == seq![digit_char(d as nat)],
{
    if d == 0 {
        proof {
            reveal_strlit("0");
            assert("0"@ =~= seq![digit_char(0)]);
        }
        "0"
    } else if d == 1 {
        proof {
            reveal_strlit("1");
            assert("1"@ =~= seq![digit_char(1)]);
        }
        "1"
    } else if d == 2 {
        proof {
            reveal_strlit("2");
            assert("2"@ =~= seq![digit_char(2)]);
        }
        "2"
    } else if d == 3 {
        proof {
            reveal_strlit("3");
            assert("3"@ =~= seq![digit_char(3)]);
        }
        "3"
    } else if d == 4 {
        proof {
            reveal_strlit("4");
            assert("4"@ =~= seq![digit_char(4)]);
        }
        "4"
    } else if d == 5 {
        proof {
            reveal_strlit("5");
            assert("5"@ =~= seq![digit_char(5)]);
        }
        "5"
    } else if d == 6 {
        proof {
            reveal_strlit("6");
            assert("6"@ =~= seq![digit_char(6)]);
        }
        "6"
    } else if d == 7 {
        proof {
            reveal_strlit("7");
            assert("7"@ =~= seq![digit_char(7)]);
        }
        "7"
    } else if d == 8 {
        proof {
            reveal_strlit("8");
            assert("8"@ =~= seq![digit_char(8)]);
        }
        "8"
    } else {
        proof {
            reveal_strlit("9");
            assert("9"@ =~= seq![digit_char(9)]);
        }
        "9"
    }
}

/// The decimal digits of `n` as a string.
fn dec_str(n: u128) -> (r: String)
    ensures
        r@ == spec_dec(n as nat),
    decreases n,
{
    if n < 10 {
        digit_str(n).to_owned()
    } else {
        proof {
            assert(n / 10 < n) by (nonlinear_arith)
                requires
                    n >= 10,
            ;
        }
        let mut s = dec_str(n / 10);
        s.append(digit_str(n % 10));
        proof {
            assert(spec_dec((n / 10) as nat) + seq![digit_char((n % 10) as nat)] =~= spec_dec(
                (n / 10) as nat,
            ).push(digit_char((n % 10) as nat)));
        }
        s
    }
}

/// A fraction of a hundred as exactly two digits.
fn frac2_str(n: u128) -> (r: String)
    requires
        n < 100,
    ensures
        r@ == spec_frac2(n as nat),
{
    if n < 10 {
        let mut s = "0".to_owned();
        s.append(digit_str(n));
        proof {
            reveal_strlit("0");
            assert("0"@ + seq![digit_char(n as nat)] =~= seq!['0', digit_char(n as nat)]);
        }
        s
    } else {
        dec_str(n)
    }
}

/// The `[X.XXMb]` annotation for a subtree of `bytes` bytes.
pub fn size_annotation(bytes: u64) -> (r: String)
    ensures
        r@ == spec_size_annotation(bytes as nat),
{
    let hundredths: u128 = ((bytes as u128) * 100 + 524288) / 1048576;
    let mut s = "[".to_owned();
    s.append(dec_str(hundredths / 100).as_str());
    s.append(".");
    s.append(frac2_str(hundredths % 100).as_str());
    s.append("Mb]");
    proof {
        assert(s@ =~= spec_size_annotation(bytes as nat));
    }
    s
}

/// The size estimator's successful outcome for the candidate at `index`:
/// it becomes `Live`, annotated with its size. On a candidate that is no
/// longer `Searched` — or an index out of range — nothing changes, so a
/// stale estimate can never rewind a candidate's lifecycle.
pub fn record_size(store: &mut CandidateStore, index: usize, bytes: u64) -> (changed: bool)
    ensures
        changed <==> (index < old(store)@.len() && old(store)@[index as int].status is Searched),
        !changed ==> final(store)@ == old(store)@,
        final(store)@.len() == old(store)@.len(),
        forall|j: int|
            0 <= j < old(store)@.len() && j != index ==> final(store)@[j] == old(store)@[j],
        changed ==> final(store)@[index as int].status is Live
            && final(store)@[index as int].end@ == spec_size_annotation(bytes as nat)
            && final(store)@[index as int].path == old(store)@[index as int].path
            && final(store)@[index as int].prefix == old(store)@[index as int].prefix,
        store_advances(old(store)@, final(store)@),
{
    store.mark_live(index, size_annotation(bytes))
}

} // verus!
