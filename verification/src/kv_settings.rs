//! Millisecond settings read from a key-value record.
use vstd::prelude::*;

verus! {

/// What a setting lookup reads of a key-value record
/// `{"kv": {<key>: <value>, ...}, "namespace": ...}`: the entries of its `kv`
/// object (`None` when there is no `kv` object), each key with its value when
/// that value is an integer that fits in `i64`.
#[derive(Debug)]
pub struct KvRecord {
    pub kv: Option<Vec<(String, Option<i64>)>>,
}

/// The value of the first entry of `entries` named `key`.
pub open spec fn entry_value(entries: Seq<(String, Option<i64>)>, key: Seq<char>) -> Option<i64>
    decreases entries.len(),
{
    if entries.len() == 0 {
        None
    } else if entries[0].0@ == key {
        entries[0].1
    } else {
        entry_value(entries.drop_first(), key)
    }
}

/// The setting `key` of a record, in milliseconds.
pub open spec fn limit_millis(record: KvRecord, key: Seq<char>) -> Option<i64> {
    match record.kv {
        None => None,
        Some(entries) => entry_value(entries@, key),
    }
}

/// The millisecond setting `key` of `record`: `None` when the record has no
/// `kv` object, no such entry, or a value that is not an `i64` integer.
pub fn get_limit_millis(record: &KvRecord, key: &str) -> (r: Option<i64>)
    ensures
        r == limit_millis(*record, key@),
{
    match &record.kv {
        None => None,
        Some(entries) => {
            let wanted = key.to_string();
            let mut i: usize = 0;
            assert(entries@.skip(0) =~= entries@);
            while i < entries.len()
                invariant
                    i <= entries@.len(),
                    wanted@ == key@,
                    record.kv matches Some(e) && e@ == entries@,
                    entry_value(entries@.skip(i as int), key@) == entry_value(entries@, key@),
                decreases entries@.len() - i,
            {
                assert(entries@.skip(i as int).drop_first() =~= entries@.skip(i + 1));
                assert(entries@.skip(i as int)[0] == entries@[i as int]);
                if entries[i].0 == wanted {
                    assert(entries@[i as int].0@ == key@);
                    assert(entry_value(entries@.skip(i as int), key@) == entries@[i as int].1);
                    return entries[i].1;
                }
                i = i + 1;
            }
            assert(entries@.skip(i as int).len() == 0);
            None
        },
    }
}

} // verus!
