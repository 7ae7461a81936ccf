//! The IBC memo: a JSON object to which the callback marker is added.
use vstd::prelude::*;

use crate::types::MemoValue;

verus! {

/// Key of the memo entry that names the contract to call back.
pub const IBC_CALLBACK: &'static str = "ibc_callback";

/// The value a memo object gives `key`; a later entry shadows an earlier one.
pub open spec fn lookup(entries: Seq<(String, MemoValue)>, key: Seq<char>) -> Option<MemoValue>
    decreases entries.len(),
{
    if entries.len() == 0 {
        None
    } else if entries.last().0@ == key {
        Some(entries.last().1)
    } else {
        lookup(entries.drop_last(), key)
    }
}

/// The entries of a memo object other than those under `key`, in order.
pub open spec fn without_key(entries: Seq<(String, MemoValue)>, key: Seq<char>) -> Seq<(String, MemoValue)>
    decreases entries.len(),
{
    if entries.len() == 0 {
        entries
    } else {
        let rest = without_key(entries.drop_last(), key);
        if entries.last().0@ == key {
            rest
        } else {
            rest.push(entries.last())
        }
    }
}

/// A memo that can take the callback marker: none at all, or an object.
pub open spec fn memo_accepts_callback(memo: Option<MemoValue>) -> bool {
    match memo {
        None => true,
        Some(m) => m is Object,
    }
}

/// The entries of the memo to extend; no memo stands for `{}`.
pub open spec fn base_entries(memo: Option<MemoValue>) -> Seq<(String, MemoValue)> {
    match memo {
        Some(MemoValue::Object(es)) => es@,
        _ => Seq::empty(),
    }
}

/// `out` is `base` with its `ibc_callback` entries replaced by one naming `address`, last.
pub open spec fn is_callback_merge(base: Seq<(String, MemoValue)>, out: MemoValue, address: Seq<char>) -> bool {
    &&& out is Object
    &&& {
        let es = out->Object_0@;
        &&& es.len() >= 1
        &&& es.drop_last() == without_key(base, IBC_CALLBACK@)
        &&& es.last().0@ == IBC_CALLBACK@
        &&& es.last().1 is Str
        &&& es.last().1->Str_0@ == address
    }
}

/// Whether a memo can take the callback marker.
pub fn accepts_callback(memo: &Option<MemoValue>) -> (r: bool)
    ensures
        r == memo_accepts_callback(*memo),
{
    match memo {
        None => true,
        Some(MemoValue::Object(_)) => true,
        Some(_) => false,
    }
}

proof fn lemma_without_key_step(s: Seq<(String, MemoValue)>, i: int, key: Seq<char>)
    requires
        0 <= i < s.len(),
    ensures
        without_key(s.subrange(0, i + 1), key) == if s[i].0@ == key {
            without_key(s.subrange(0, i), key)
        } else {
            without_key(s.subrange(0, i), key).push(s[i])
        },
{
    assert(s.subrange(0, i + 1).drop_last() =~= s.subrange(0, i));
}

/// Adds the entry `"ibc_callback": address` to the memo, after removing any
/// entry already under that key. No memo counts as the empty object.
pub fn inject_ibc_callback(memo: Option<MemoValue>, address: String) -> (r: MemoValue)
    requires
        memo_accepts_callback(memo),
    ensures
        is_callback_merge(base_entries(memo), r, address@),
{
    let mut entries: Vec<(String, MemoValue)> = match memo {
        Some(MemoValue::Object(es)) => es,
        _ => Vec::new(),
    };
    let ghost orig = entries@;
    let key = String::from_str(IBC_CALLBACK);
    let mut out: Vec<(String, MemoValue)> = Vec::new();
    let ghost mut taken: int = 0;
    assert(orig.subrange(0, 0) =~= Seq::<(String, MemoValue)>::empty());
    assert(orig.subrange(0, orig.len() as int) =~= orig);
    while entries.len() > 0
        invariant
            0 <= taken <= orig.len(),
            entries@ == orig.subrange(taken, orig.len() as int),
            out@ == without_key(orig.subrange(0, taken), IBC_CALLBACK@),
            key@ == IBC_CALLBACK@,
        decreases entries.len(),
    {
        let e = entries.remove(0);
        proof {
            lemma_without_key_step(orig, taken, IBC_CALLBACK@);
            assert(e == orig[taken]);
        }
        if e.0 != key {
            out.push(e);
        }
        proof {
            taken = taken + 1;
            assert(entries@ =~= orig.subrange(taken, orig.len() as int));
        }
    }
    assert(orig.subrange(0, taken) =~= orig);
    let ghost kept = out@;
    out.push((key, MemoValue::Str(address)));
    assert(out@.drop_last() =~= kept);
    MemoValue::Object(out)
}

proof fn lemma_lookup_without_key(s: Seq<(String, MemoValue)>, drop: Seq<char>, key: Seq<char>)
    requires
        key != drop,
    ensures
        lookup(without_key(s, drop), key) == lookup(s, key),
    decreases s.len(),
{
    if s.len() > 0 {
        lemma_lookup_without_key(s.drop_last(), drop, key);
        let rest = without_key(s.drop_last(), drop);
        if s.last().0@ != drop {
            assert(rest.push(s.last()).drop_last() =~= rest);
        }
    }
}

/// Memo injection: the merged memo gives the callback key the contract's
/// address, and every other key exactly the value the memo it was built from gave it.
pub proof fn lemma_memo_injection(base: Seq<(String, MemoValue)>, out: MemoValue, address: Seq<char>)
    requires
        is_callback_merge(base, out, address),
    ensures
        lookup(out->Object_0@, IBC_CALLBACK@) matches Some(MemoValue::Str(a)) && a@ == address,
        forall|key: Seq<char>| key != IBC_CALLBACK@ ==> lookup(out->Object_0@, key) == lookup(base, key),
{
    let es = out->Object_0@;
    assert forall|key: Seq<char>| key != IBC_CALLBACK@ implies lookup(es, key) == lookup(base, key) by {
        lemma_lookup_without_key(base, IBC_CALLBACK@, key);
        assert(es.drop_last() == without_key(base, IBC_CALLBACK@));
    }
}

} // verus!
