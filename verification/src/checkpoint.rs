//! File read offsets for rotation-aware tailing, keyed by the file's
//! `(device, inode)` identity rather than its path, so a renamed file keeps
//! its progress. The store's text form is what goes to disk.

use vstd::prelude::*;
use crate::json::{JsonValue, JsonMap, JVal, JObj, obj_model, lookup, map_get, map_insert, spec_json_parse, json_parse};
use crate::text::{
    nat_text, spec_parse_u64, first_index_of, chars_of, find_char_from, slice_to_vec, parse_u64_chars, u64_to_text,
    append_str, lemma_nat_text, lemma_first_index_of, str_eq,
};
use crate::time::Timestamp;

verus! {

/// A file's identity on its filesystem.
#[derive(Clone, Copy, Debug, PartialEq, Eq, Structural)]
pub struct FileIdentity {
    pub device: u64,
    pub inode: u64,
}

/// The key an identity is stored under: `<device>:<inode>`.
pub open spec fn spec_key(id: FileIdentity) -> Seq<char> {
    nat_text(id.device as nat) + seq![':'] + nat_text(id.inode as nat)
}

/// Reads a key back: two unsigned numbers around the first `:`.
pub open spec fn spec_parse_key(s: Seq<char>) -> Option<FileIdentity> {
    match first_index_of(s, ':') {
        None => None,
        Some(k) => match (spec_parse_u64(s.take(k)), spec_parse_u64(s.skip(k + 1))) {
            (Some(d), Some(i)) => Some(FileIdentity { device: d, inode: i }),
            _ => None,
        },
    }
}

proof fn lemma_parse_nat_text(n: u64)
    ensures
        spec_parse_u64(nat_text(n as nat)) == Some(n),
{
    lemma_nat_text(n as nat);
    let t = nat_text(n as nat);
    assert(crate::text::is_digit(t[0]));
}

/// Law: a key reads back as the identity it was made from.
pub proof fn law_key_round_trip(id: FileIdentity)
    ensures
        spec_parse_key(spec_key(id)) == Some(id),
{
    let d = nat_text(id.device as nat);
    let s = spec_key(id);
    lemma_nat_text(id.device as nat);
    lemma_nat_text(id.inode as nat);
    assert forall|j: int| 0 <= j < d.len() implies s[j] != ':' by {
        assert(s[j] == d[j]);
        assert(crate::text::is_digit(d[j]));
    }
    lemma_first_index_of(s, ':', d.len() as int);
    assert(s.take(d.len() as int) =~= d);
    assert(s.skip(d.len() as int + 1) =~= nat_text(id.inode as nat));
    lemma_parse_nat_text(id.device);
    lemma_parse_nat_text(id.inode);
}

/// Law: different identities have different keys.
pub proof fn law_key_injective(a: FileIdentity, b: FileIdentity)
    requires
        spec_key(a) == spec_key(b),
    ensures
        a == b,
{
    law_key_round_trip(a);
    law_key_round_trip(b);
}

impl FileIdentity {
    pub fn key(&self) -> (r: String)
        ensures
            r@ == spec_key(*self),
    {
        let mut s = u64_to_text(self.device);
        crate::text::push_char(&mut s, ':');
        let t = u64_to_text(self.inode);
        append_str(&mut s, t.as_str());
        assert(s@ =~= spec_key(*self));
        s
    }

    pub fn parse_key(s: &str) -> (r: Option<FileIdentity>)
        ensures
            r == spec_parse_key(s@),
    {
        let v = chars_of(s);
        let k = find_char_from(&v, ':', 0);
        proof {
            lemma_first_index_of(s@, ':', k as int);
        }
        if k == v.len() {
            return None;
        }
        let d = slice_to_vec(&v, 0, k);
        let i = slice_to_vec(&v, k + 1, v.len());
        assert(d@ =~= s@.take(k as int));
        assert(i@ =~= s@.skip(k + 1));
        match (parse_u64_chars(&d), parse_u64_chars(&i)) {
            (Some(device), Some(inode)) => Some(FileIdentity { device, inode }),
            _ => None,
        }
    }
}

/// Where a file was last read to.
pub struct FileOffsetEntry {
    /// The last known path, for diagnostics only.
    pub path: String,
    pub offset: u64,
    pub updated_at: Timestamp,
}

/// The stored document: a version and one entry per identity key.
pub struct CheckpointFileFormat {
    pub version: u32,
    pub entries: Vec<(String, FileOffsetEntry)>,
}

/// Model of an entry: path, offset, time of update.
pub type EntryModel = (Seq<char>, u64, Timestamp);

pub open spec fn entries_model(v: Seq<(String, FileOffsetEntry)>) -> Seq<(Seq<char>, EntryModel)> {
    Seq::new(v.len(), |i: int| (v[i].0@, (v[i].1.path@, v[i].1.offset, v[i].1.updated_at)))
}

/// Index of the first entry with key `k`.
pub open spec fn entry_index(s: Seq<(Seq<char>, EntryModel)>, k: Seq<char>) -> Option<int>
    decreases s.len(),
{
    if s.len() == 0 {
        None
    } else if s[0].0 == k {
        Some(0)
    } else {
        match entry_index(s.drop_first(), k) {
            Some(i) => Some(i + 1),
            None => None,
        }
    }
}

/// The entry stored under a key.
pub open spec fn entry_get(s: Seq<(Seq<char>, EntryModel)>, k: Seq<char>) -> Option<EntryModel> {
    match entry_index(s, k) {
        Some(i) => Some(s[i].1),
        None => None,
    }
}

/// Stores an entry under a key, replacing the entry already there.
pub open spec fn entry_put(s: Seq<(Seq<char>, EntryModel)>, k: Seq<char>, e: EntryModel) -> Seq<(Seq<char>, EntryModel)> {
    match entry_index(s, k) {
        Some(i) => s.update(i, (k, e)),
        None => s.push((k, e)),
    }
}

pub open spec fn unique_keys(s: Seq<(Seq<char>, EntryModel)>) -> bool {
    forall|i: int, j: int| 0 <= i < j < s.len() ==> s[i].0 != s[j].0
}

proof fn lemma_entry_index(s: Seq<(Seq<char>, EntryModel)>, k: Seq<char>, i: int)
    requires
        0 <= i <= s.len(),
        forall|j: int| 0 <= j < i ==> s[j].0 != k,
    ensures
        i < s.len() && s[i].0 == k ==> entry_index(s, k) == Some(i),
        i == s.len() ==> entry_index(s, k) is None,
    decreases i,
{
    if i > 0 {
        lemma_entry_index(s.drop_first(), k, i - 1);
    }
}

proof fn lemma_entry_index_bounds(s: Seq<(Seq<char>, EntryModel)>, k: Seq<char>)
    ensures
        entry_index(s, k) matches Some(i) ==> 0 <= i < s.len() && s[i].0 == k && forall|j: int| 0 <= j < i ==> s[j].0 != k,
        entry_index(s, k) is None ==> forall|j: int| 0 <= j < s.len() ==> s[j].0 != k,
    decreases s.len(),
{
    if s.len() > 0 {
        lemma_entry_index_bounds(s.drop_first(), k);
        assert forall|j: int| 1 <= j < s.len() implies s[j].0 == s.drop_first()[j - 1].0 by {}
    }
}

/// Law: the entry just stored under a key is what the key reads back.
pub proof fn law_get_after_put(s: Seq<(Seq<char>, EntryModel)>, k: Seq<char>, e: EntryModel)
    ensures
        entry_get(entry_put(s, k, e), k) == Some(e),
{
    lemma_entry_index_bounds(s, k);
    let u = entry_put(s, k, e);
    match entry_index(s, k) {
        Some(i) => {
            assert forall|j: int| 0 <= j < i implies u[j].0 != k by {}
            lemma_entry_index(u, k, i);
        },
        None => {
            assert forall|j: int| 0 <= j < s.len() implies u[j].0 != k by {}
            lemma_entry_index(u, k, s.len() as int);
        },
    }
}

/// Law: storing under one key leaves what every other key reads.
pub proof fn law_put_keeps_others(s: Seq<(Seq<char>, EntryModel)>, k: Seq<char>, e: EntryModel, k2: Seq<char>)
    requires
        k2 != k,
    ensures
        entry_get(entry_put(s, k, e), k2) == entry_get(s, k2),
{
    lemma_entry_index_bounds(s, k);
    lemma_entry_index_bounds(s, k2);
    let u = entry_put(s, k, e);
    match entry_index(s, k2) {
        Some(j) => {
            assert forall|x: int| 0 <= x < j implies u[x].0 != k2 by {}
            lemma_entry_index(u, k2, j);
        },
        None => {
            assert forall|x: int| 0 <= x < u.len() implies u[x].0 != k2 by {}
            lemma_entry_index(u, k2, u.len() as int);
        },
    }
}

/// Storing keeps keys unique.
proof fn lemma_put_unique(s: Seq<(Seq<char>, EntryModel)>, k: Seq<char>, e: EntryModel)
    requires
        unique_keys(s),
    ensures
        unique_keys(entry_put(s, k, e)),
{
    lemma_entry_index_bounds(s, k);
}

/// Index of the entry stored under `k`.
fn find_entry(entries: &Vec<(String, FileOffsetEntry)>, k: &str) -> (r: Option<usize>)
    ensures
        r matches Some(i) ==> i < entries@.len() && entry_index(entries_model(entries@), k@) == Some(i as int),
        r is None ==> entry_index(entries_model(entries@), k@) is None,
{
    let ghost m = entries_model(entries@);
    let mut i: usize = 0;
    while i < entries.len()
        invariant
            i <= entries@.len(),
            m == entries_model(entries@),
            forall|j: int| 0 <= j < i ==> m[j].0 != k@,
        decreases entries@.len() - i,
    {
        if str_eq(entries[i].0.as_str(), k) {
            proof {
                lemma_entry_index(m, k@, i as int);
            }
            return Some(i);
        }
        i = i + 1;
    }
    proof {
        lemma_entry_index(m, k@, i as int);
    }
    None
}

/// The offsets of a store and where it lives.
pub struct CheckpointStore {
    pub path: String,
    pub data: CheckpointFileFormat,
}

impl CheckpointStore {
    /// The store's entries keep one entry per key.
    pub open spec fn wf(&self) -> bool {
        unique_keys(entries_model(self.data.entries@))
    }

    /// The offset stored for a file.
    pub open spec fn spec_get(&self, id: FileIdentity) -> Option<u64> {
        match entry_get(entries_model(self.data.entries@), spec_key(id)) {
            Some(e) => Some(e.1),
            None => None,
        }
    }

    /// A store with no entries.
    pub fn empty(path: &str) -> (r: CheckpointStore)
        ensures
            r.path@ == path@,
            r.data.version == 1,
            r.data.entries@.len() == 0,
            r.wf(),
    {
        CheckpointStore { path: path.to_owned(), data: CheckpointFileFormat { version: 1, entries: Vec::new() } }
    }

    pub fn get(&self, id: FileIdentity) -> (r: Option<u64>)
        ensures
            r == self.spec_get(id),
    {
        let k = id.key();
        let ghost m = entries_model(self.data.entries@);
        let mut i: usize = 0;
        while i < self.data.entries.len()
            invariant
                i <= self.data.entries@.len(),
                m == entries_model(self.data.entries@),
                k@ == spec_key(id),
                forall|j: int| 0 <= j < i ==> m[j].0 != k@,
            decreases self.data.entries@.len() - i,
        {
            if str_eq(self.data.entries[i].0.as_str(), k.as_str()) {
                proof {
                    lemma_entry_index(m, k@, i as int);
                }
                return Some(self.data.entries[i].1.offset);
            }
            i = i + 1;
        }
        proof {
            lemma_entry_index(m, k@, i as int);
        }
        None
    }

    /// Records a file's offset, stamped `at`.
    pub fn set_at(&mut self, id: FileIdentity, path: &str, offset: u64, at: Timestamp)
        requires
            old(self).wf(),
        ensures
            final(self).wf(),
            final(self).path == old(self).path,
            final(self).data.version == old(self).data.version,
            entries_model(final(self).data.entries@)
                == entry_put(entries_model(old(self).data.entries@), spec_key(id), (path@, offset, at)),
    {
        let k = id.key();
        let ghost m = entries_model(self.data.entries@);
        let ghost kv = k@;
        let found = find_entry(&self.data.entries, k.as_str());
        proof {
            lemma_put_unique(m, kv, (path@, offset, at));
        }
        let entry = FileOffsetEntry { path: path.to_owned(), offset, updated_at: at };
        match found {
            Some(i) => {
                self.data.entries.set(i, (k, entry));
                assert(entries_model(self.data.entries@) =~= m.update(i as int, (kv, (path@, offset, at))));
            },
            None => {
                self.data.entries.push((k, entry));
                assert(entries_model(self.data.entries@) =~= m.push((kv, (path@, offset, at))));
            },
        }
    }

    /// Records a file's offset, stamped with the current time.
    pub fn set(&mut self, id: FileIdentity, path: &str, offset: u64)
        requires
            old(self).wf(),
        ensures
            final(self).wf(),
            final(self).path == old(self).path,
            final(self).data.version == old(self).data.version,
            exists|at: Timestamp| entries_model(final(self).data.entries@)
                == entry_put(entries_model(old(self).data.entries@), spec_key(id), (path@, offset, at)),
            final(self).spec_get(id) == Some(offset),
            forall|other: FileIdentity| other != id ==> final(self).spec_get(other) == old(self).spec_get(other),
    {
        let at = crate::time::now();
        self.set_at(id, path, offset, at);
        proof {
            law_get_after_put(entries_model(old(self).data.entries@), spec_key(id), (path@, offset, at));
            assert forall|other: FileIdentity| other != id implies final(self).spec_get(other) == old(self).spec_get(other) by {
                if spec_key(other) == spec_key(id) {
                    law_key_injective(other, id);
                }
                law_put_keeps_others(entries_model(old(self).data.entries@), spec_key(id), (path@, offset, at), spec_key(other));
            }
        }
    }

    /// Keeps the entries whose key reads as an identity that `keep`
    /// accepts, in their order; drops the others.
    pub fn retain<F: Fn(FileIdentity) -> bool>(&mut self, keep: F)
        requires
            old(self).wf(),
            forall|id: FileIdentity| keep.requires((id,)),
        ensures
            final(self).wf(),
            final(self).path == old(self).path,
            final(self).data.version == old(self).data.version,
            retained(entries_model(old(self).data.entries@), entries_model(final(self).data.entries@), keep),
    {
        let ghost m = entries_model(self.data.entries@);
        let mut old_entries: Vec<(String, FileOffsetEntry)> = Vec::new();
        std::mem::swap(&mut old_entries, &mut self.data.entries);
        let mut kept: Vec<(String, FileOffsetEntry)> = Vec::new();
        let ghost mut flags: Seq<bool> = Seq::empty();
        let ghost mut idx: Seq<int> = Seq::empty();
        let mut i: usize = 0;
        while i < old_entries.len()
            invariant
                i <= old_entries@.len(),
                m == entries_model(old_entries@),
                unique_keys(m),
                flags.len() == i,
                forall|id: FileIdentity| keep.requires((id,)),
                forall|j: int| 0 <= j < i ==> keep_flag(m[j].0, flags[j], keep),
                entries_model(kept@) == filter_flags(m.take(i as int), flags),
                idx.len() == kept@.len(),
                forall|a: int| 0 <= a < idx.len() ==> 0 <= #[trigger] idx[a] < i && entries_model(kept@)[a] == m[idx[a]],
                forall|a: int, b: int| 0 <= a < b < idx.len() ==> #[trigger] idx[a] < #[trigger] idx[b],
            decreases old_entries@.len() - i,
        {
            let ghost prev = m.take(i as int);
            assert(m.take(i + 1) =~= prev.push(m[i as int]));
            let parsed = FileIdentity::parse_key(old_entries[i].0.as_str());
            let take = match parsed {
                Some(id) => keep(id),
                None => false,
            };
            proof {
                lemma_filter_flags_push(prev, flags, m[i as int], take);
                flags = flags.push(take);
            }
            if take {
                let ghost before = kept@;
                let k = old_entries[i].0.clone();
                let e = FileOffsetEntry {
                    path: old_entries[i].1.path.clone(),
                    offset: old_entries[i].1.offset,
                    updated_at: old_entries[i].1.updated_at,
                };
                kept.push((k, e));
                assert(entries_model(kept@) =~= entries_model(before).push(m[i as int]));
                proof {
                    idx = idx.push(i as int);
                }
            }
            i = i + 1;
        }
        assert(m.take(i as int) =~= m);
        assert(unique_keys(entries_model(kept@))) by {
            assert forall|a: int, b: int| 0 <= a < b < entries_model(kept@).len() implies
                entries_model(kept@)[a].0 != entries_model(kept@)[b].0 by {
                assert(idx[a] < idx[b]);
            }
        }
        self.data.entries = kept;
    }
}

/// Whether an entry with this key is kept, as `keep` answered.
pub open spec fn keep_flag<F: Fn(FileIdentity) -> bool>(k: Seq<char>, flag: bool, keep: F) -> bool {
    match spec_parse_key(k) {
        None => !flag,
        Some(id) => keep.ensures((id,), flag),
    }
}

/// The entries whose flag is set, in order.
pub open spec fn filter_flags(s: Seq<(Seq<char>, EntryModel)>, flags: Seq<bool>) -> Seq<(Seq<char>, EntryModel)>
    decreases s.len(),
{
    if s.len() == 0 {
        Seq::empty()
    } else {
        let rest = filter_flags(s.drop_last(), flags);
        if flags[s.len() - 1] { rest.push(s.last()) } else { rest }
    }
}

/// `after` is `before` with exactly the entries that `keep` rejected (or
/// whose key is no identity) left out, in order.
pub open spec fn retained<F: Fn(FileIdentity) -> bool>(
    before: Seq<(Seq<char>, EntryModel)>,
    after: Seq<(Seq<char>, EntryModel)>,
    keep: F,
) -> bool {
    exists|flags: Seq<bool>| flags.len() == before.len()
        && (forall|j: int| 0 <= j < before.len() ==> keep_flag(before[j].0, #[trigger] flags[j], keep))
        && after == filter_flags(before, flags)
}

proof fn lemma_filter_flags_push(s: Seq<(Seq<char>, EntryModel)>, flags: Seq<bool>, x: (Seq<char>, EntryModel), f: bool)
    requires
        flags.len() == s.len(),
    ensures
        filter_flags(s.push(x), flags.push(f)) == if f { filter_flags(s, flags).push(x) } else { filter_flags(s, flags) },
{
    assert(s.push(x).drop_last() =~= s);
    lemma_filter_flags_prefix(s, flags, flags.push(f));
}

proof fn lemma_filter_flags_prefix(s: Seq<(Seq<char>, EntryModel)>, f1: Seq<bool>, f2: Seq<bool>)
    requires
        f1.len() >= s.len(),
        f2.len() >= s.len(),
        forall|j: int| 0 <= j < s.len() ==> f1[j] == f2[j],
    ensures
        filter_flags(s, f1) == filter_flags(s, f2),
    decreases s.len(),
{
    if s.len() > 0 {
        lemma_filter_flags_prefix(s.drop_last(), f1, f2);
    }
}

/// The positions among the first `n` whose flag is set, in order.
pub open spec fn kept_positions(n: nat, flags: Seq<bool>) -> Seq<int>
    decreases n,
{
    if n == 0 {
        Seq::empty()
    } else {
        let r = kept_positions((n - 1) as nat, flags);
        if flags[n - 1] { r.push(n - 1) } else { r }
    }
}

/// The kept entries are those at the flagged positions, and every flagged
/// entry is kept.
proof fn lemma_filter_flags_members(s: Seq<(Seq<char>, EntryModel)>, flags: Seq<bool>)
    requires
        flags.len() == s.len(),
    ensures
        kept_positions(s.len(), flags).len() == filter_flags(s, flags).len(),
        forall|a: int| 0 <= a < filter_flags(s, flags).len() ==> {
            let j = #[trigger] kept_positions(s.len(), flags)[a];
            0 <= j < s.len() && flags[j] && filter_flags(s, flags)[a] == s[j]
        },
        forall|j: int| 0 <= j < s.len() && #[trigger] flags[j] ==> filter_flags(s, flags).contains(s[j]),
    decreases s.len(),
{
    if s.len() > 0 {
        let p = s.drop_last();
        let fp = flags.take(p.len() as int);
        lemma_filter_flags_members(p, fp);
        lemma_filter_flags_prefix(p, fp, flags);
        lemma_kept_positions_prefix(p.len(), fp, flags);
        let rest = filter_flags(p, flags);
        assert forall|a: int| 0 <= a < filter_flags(s, flags).len() implies {
            let j = #[trigger] kept_positions(s.len(), flags)[a];
            0 <= j < s.len() && flags[j] && filter_flags(s, flags)[a] == s[j]
        } by {
            if a < rest.len() {
                let j = kept_positions(p.len(), fp)[a];
                assert(kept_positions(s.len(), flags)[a] == j);
                assert(s[j] == p[j] && flags[j] == fp[j]);
            }
        }
        assert forall|j: int| 0 <= j < s.len() && #[trigger] flags[j] implies filter_flags(s, flags).contains(s[j]) by {
            if j < p.len() {
                assert(fp[j] == flags[j] && p[j] == s[j]);
                assert(filter_flags(p, fp).contains(p[j]));
                let a = choose|a: int| 0 <= a < rest.len() && rest[a] == p[j];
                assert(filter_flags(s, flags)[a] == rest[a]);
            } else {
                assert(filter_flags(s, flags)[rest.len() as int] == s[j]);
            }
        }
    }
}

proof fn lemma_kept_positions_prefix(n: nat, f1: Seq<bool>, f2: Seq<bool>)
    requires
        f1.len() >= n,
        f2.len() >= n,
        forall|j: int| 0 <= j < n ==> f1[j] == f2[j],
    ensures
        kept_positions(n, f1) == kept_positions(n, f2),
    decreases n,
{
    if n > 0 {
        lemma_kept_positions_prefix((n - 1) as nat, f1, f2);
    }
}

/// With distinct keys, what a key reads is the entry holding it.
proof fn lemma_entry_get_member(s: Seq<(Seq<char>, EntryModel)>, j: int)
    requires
        unique_keys(s),
        0 <= j < s.len(),
    ensures
        entry_get(s, s[j].0) == Some(s[j].1),
{
    assert forall|i: int| 0 <= i < j implies s[i].0 != s[j].0 by {}
    lemma_entry_index(s, s[j].0, j);
}

/// Law: after `retain`, an identity reads as it did before when `keep`
/// kept it, and reads as nothing when it had no entry or `keep` rejected
/// it.
pub proof fn law_retain_get<F: Fn(FileIdentity) -> bool>(
    before: Seq<(Seq<char>, EntryModel)>,
    after: Seq<(Seq<char>, EntryModel)>,
    keep: F,
    id: FileIdentity,
)
    requires
        unique_keys(before),
        unique_keys(after),
        retained(before, after, keep),
    ensures
        entry_get(before, spec_key(id)) is None ==> entry_get(after, spec_key(id)) is None,
        entry_get(after, spec_key(id)) is Some ==> entry_get(after, spec_key(id)) == entry_get(before, spec_key(id))
            && keep.ensures((id,), true),
        entry_get(before, spec_key(id)) is Some && entry_get(after, spec_key(id)) is None ==> keep.ensures((id,), false),
{
    let k = spec_key(id);
    let flags = choose|flags: Seq<bool>| flags.len() == before.len()
        && (forall|j: int| 0 <= j < before.len() ==> keep_flag(before[j].0, #[trigger] flags[j], keep))
        && after == filter_flags(before, flags);
    lemma_filter_flags_members(before, flags);
    law_key_round_trip(id);
    lemma_entry_index_bounds(before, k);
    lemma_entry_index_bounds(after, k);
    if let Some(a) = entry_index(after, k) {
        let j = kept_positions(before.len(), flags)[a];
        lemma_entry_get_member(before, j);
        assert(keep_flag(before[j].0, flags[j], keep));
    }
    if let Some(j) = entry_index(before, k) {
        assert(keep_flag(before[j].0, flags[j], keep));
        if flags[j] {
            assert(after.contains(before[j]));
            let a = choose|a: int| 0 <= a < after.len() && after[a] == before[j];
            lemma_entry_get_member(after, a);
        }
    } else {
        if let Some(a) = entry_index(after, k) {
            let j = kept_positions(before.len(), flags)[a];
            assert(before[j].0 == k);
        }
    }
}

} // verus!

verus! {

/// What `str::parse::<chrono::DateTime<Utc>>` makes of a text (a relaxed
/// RFC 3339 form).
pub uninterp spec fn spec_parse_datetime(s: Seq<char>) -> Option<Timestamp>;

/// What chrono's serde form of a `DateTime<Utc>` is for an instant
/// (`to_rfc3339_opts(SecondsFormat::AutoSi, true)`), or `None` when the
/// instant is outside chrono's range.
pub uninterp spec fn spec_rfc3339_text(t: Timestamp) -> Option<Seq<char>>;

/// What `serde_json::to_string_pretty` writes for a value.
pub uninterp spec fn spec_json_pretty(v: JVal) -> Seq<char>;

/// `s.parse::<chrono::DateTime<chrono::Utc>>()`.
#[verifier::external_body]
fn parse_datetime(s: &str) -> (r: Option<Timestamp>)
    ensures
        r == spec_parse_datetime(s@),
{
    s.parse::<chrono::DateTime<chrono::Utc>>().ok().map(|dt| Timestamp { secs: dt.timestamp(), nanos: dt.timestamp_subsec_nanos() })
}

/// A parse that succeeded with this value.
pub open spec fn spec_json_ok(v: JVal) -> Result<JVal, Seq<char>> {
    Ok(v)
}

/// An instant chrono writes as RFC 3339 and reads back: a year from 0
/// to 9999 and no leap second.
pub open spec fn plain_instant(t: Timestamp) -> bool {
    t.nanos < 1_000_000_000 && -62_167_219_200 <= t.secs < 253_402_300_800
}

/// The instant in chrono's serde text form
/// (`DateTime::from_timestamp`, then `to_rfc3339_opts(AutoSi, true)`). The
/// contract claims the text `spec_rfc3339_text` names, and, for a plain
/// instant, that `str::parse::<DateTime<Utc>>` reads the text back as the
/// same instant: chrono's writer prints a year in 0..=9999 as four digits
/// and the nanoseconds to the precision they need, and its RFC 3339
/// parser reads both back.
#[verifier::external_body]
fn rfc3339_text(t: Timestamp) -> (r: Option<String>)
    ensures
        match spec_rfc3339_text(t) {
            Some(s) => r matches Some(x) && x@ == s,
            None => r is None,
        },
        r matches Some(x) ==> (plain_instant(t) ==> spec_parse_datetime(x@) == Some(t)),
{
    chrono::DateTime::from_timestamp(t.secs, t.nanos).map(|dt| dt.to_rfc3339_opts(chrono::SecondsFormat::AutoSi, true))
}

/// `serde_json::to_string_pretty` of a value, which cannot fail for a
/// `serde_json::Value`. The contract claims the text `spec_json_pretty`
/// names, and that `serde_json::from_str` reads a plain value back as it
/// was: with `preserve_order` an object keeps its key order, an integer
/// within `u64` or a negative one within `i64` prints in canonical decimal
/// and parses back to the same number,
/// strings are escaped and unescaped exactly, and the parser's nesting
/// limit is 128.
#[verifier::external_body]
fn json_pretty(v: &JsonValue) -> (r: String)
    ensures
        r@ == spec_json_pretty(v@),
        crate::json::plain_json(v@, 100) ==> spec_json_parse(r@) == spec_json_ok(v@),
{
    serde_json::to_string_pretty(&crate::json::to_serde(v)).unwrap_or_default()
}

/// An entry as stored: `path`, `offset` and `updated_at`.
pub open spec fn read_entry(v: JVal) -> Option<EntryModel> {
    match v {
        JVal::Obj(o) => match (lookup(o, "path"@), lookup(o, "offset"@), lookup(o, "updated_at"@)) {
            (Some(JVal::Str(p)), Some(JVal::Num(n)), Some(JVal::Str(t))) => match (spec_parse_u64(n), spec_parse_datetime(t)) {
                (Some(off), Some(ts)) => Some((p, off, ts)),
                _ => None,
            },
            _ => None,
        },
        _ => None,
    }
}

/// All entries of the stored `entries` object, each stored under its key
/// in turn.
pub open spec fn read_entries(o: JObj) -> Option<Seq<(Seq<char>, EntryModel)>>
    decreases o.len(),
{
    if o.len() == 0 {
        Some(Seq::empty())
    } else {
        match read_entries(o.drop_last()) {
            None => None,
            Some(es) => match read_entry(o.last().1) {
                None => None,
                Some(e) => Some(entry_put(es, o.last().0, e)),
            },
        }
    }
}

/// The stored document: its version and entries, or `None` when it is
/// not a checkpoint document.
pub open spec fn read_format(doc: JVal) -> Option<(u32, Seq<(Seq<char>, EntryModel)>)> {
    match doc {
        JVal::Obj(top) => match (lookup(top, "version"@), lookup(top, "entries"@)) {
            (Some(JVal::Num(n)), Some(JVal::Obj(es))) => match (spec_parse_u64(n), read_entries(es)) {
                (Some(ver), Some(entries)) => if ver <= u32::MAX { Some((ver as u32, entries)) } else { None },
                _ => None,
            },
            _ => None,
        },
        _ => None,
    }
}

/// What a checkpoint text loads as: its document, or an empty version 1
/// store when there is no text or it does not read as one.
pub open spec fn spec_load(text: Option<Seq<char>>) -> (u32, Seq<(Seq<char>, EntryModel)>) {
    match text {
        None => (1, Seq::empty()),
        Some(t) => match spec_json_parse(t) {
            Err(_) => (1, Seq::empty()),
            Ok(doc) => match read_format(doc) {
                Some(f) => f,
                None => (1, Seq::empty()),
            },
        },
    }
}

/// The stored form of an entry, when its time can be written.
pub open spec fn entry_json(e: EntryModel) -> Option<JVal> {
    match spec_rfc3339_text(e.2) {
        None => None,
        Some(t) => Some(JVal::Obj(crate::json::obj_insert(
            crate::json::obj_insert(crate::json::obj_insert(Seq::empty(), "path"@, JVal::Str(e.0)), "offset"@, JVal::Num(nat_text(e.1 as nat))),
            "updated_at"@,
            JVal::Str(t),
        ))),
    }
}

/// The stored `entries` object for the first `n` entries.
pub open spec fn entries_json(es: Seq<(Seq<char>, EntryModel)>) -> Option<JObj>
    decreases es.len(),
{
    if es.len() == 0 {
        Some(Seq::empty())
    } else {
        match (entries_json(es.drop_last()), entry_json(es.last().1)) {
            (Some(o), Some(v)) => Some(crate::json::obj_insert(o, es.last().0, v)),
            _ => None,
        }
    }
}

/// The text a store is written as, or `None` when an entry's time cannot
/// be written.
pub open spec fn spec_store_text(version: u32, es: Seq<(Seq<char>, EntryModel)>) -> Option<Seq<char>> {
    match entries_json(es) {
        None => None,
        Some(o) => Some(spec_json_pretty(store_doc(version, o))),
    }
}

/// The stored document: `version`, then the `entries` object.
pub open spec fn store_doc(version: u32, o: JObj) -> JVal {
    JVal::Obj(crate::json::obj_insert(
        crate::json::obj_insert(Seq::empty(), "version"@, JVal::Num(nat_text(version as nat))),
        "entries"@,
        JVal::Obj(o),
    ))
}

/// The instant's stored text reads back as the instant.
pub open spec fn time_reads_back(t: Timestamp) -> bool {
    match spec_rfc3339_text(t) {
        Some(s) => spec_parse_datetime(s) == Some(t),
        None => false,
    }
}

/// Every entry's time is one chrono writes and reads back.
pub open spec fn all_times_plain(es: Seq<(Seq<char>, EntryModel)>) -> bool {
    forall|j: int| 0 <= j < es.len() ==> plain_instant(#[trigger] es[j].1.2)
}

/// For unique keys, the `entries` object holds one stored entry per entry,
/// in order.
proof fn lemma_entries_json_shape(es: Seq<(Seq<char>, EntryModel)>)
    requires
        unique_keys(es),
    ensures
        entries_json(es) matches Some(o) ==> (o.len() == es.len() && forall|i: int|
            0 <= i < es.len() ==> (#[trigger] o[i]).0 == es[i].0 && entry_json(es[i].1) == Some(o[i].1)),
    decreases es.len(),
{
    if es.len() > 0 {
        let p = es.drop_last();
        assert(unique_keys(p)) by {
            assert forall|i: int, j: int| 0 <= i < j < p.len() implies p[i].0 != p[j].0 by {
                assert(p[i] == es[i] && p[j] == es[j]);
            }
        }
        lemma_entries_json_shape(p);
        if let Some(o) = entries_json(es) {
            let q = entries_json(p)->0;
            let k = es.last().0;
            assert forall|j: int| 0 <= j < q.len() implies q[j].0 != k by {
                assert(p[j] == es[j]);
            }
            crate::json::lemma_find_key(q, k, q.len() as int);
            assert(o == q.push((k, entry_json(es.last().1)->0)));
            assert forall|i: int| 0 <= i < es.len() implies (#[trigger] o[i]).0 == es[i].0 && entry_json(es[i].1) == Some(o[i].1) by {
                if i < p.len() {
                    assert(o[i] == q[i] && p[i] == es[i]);
                }
            }
        }
    }
}

/// A stored entry reads back as the entry, and is plain JSON.
proof fn lemma_entry_json_reads_back(e: EntryModel)
    requires
        time_reads_back(e.2),
    ensures
        entry_json(e) matches Some(v) ==> (read_entry(v) == Some(e) && crate::json::plain_json(v, 98)),
{
    reveal_strlit("path");
    reveal_strlit("offset");
    reveal_strlit("updated_at");
    let t = spec_rfc3339_text(e.2)->0;
    let s0: JObj = Seq::empty();
    crate::json::lemma_find_key(s0, "path"@, 0);
    let s1 = crate::json::obj_insert(s0, "path"@, JVal::Str(e.0));
    assert(s1 == s0.push(("path"@, JVal::Str(e.0))));
    assert(s1[0].0.len() != "offset"@.len());
    crate::json::lemma_find_key(s1, "offset"@, 1);
    let s2 = crate::json::obj_insert(s1, "offset"@, JVal::Num(nat_text(e.1 as nat)));
    assert(s2 == s1.push(("offset"@, JVal::Num(nat_text(e.1 as nat)))));
    assert(s2[0].0.len() != "updated_at"@.len() && s2[1].0.len() != "updated_at"@.len());
    crate::json::lemma_find_key(s2, "updated_at"@, 2);
    let s3 = crate::json::obj_insert(s2, "updated_at"@, JVal::Str(t));
    assert(s3 == s2.push(("updated_at"@, JVal::Str(t))));
    crate::json::lemma_find_key(s3, "path"@, 0);
    crate::json::lemma_find_key(s3, "offset"@, 1);
    crate::json::lemma_find_key(s3, "updated_at"@, 2);
    lemma_parse_nat_text(e.1);
    assert(crate::json::keys_unique(s3)) by {
        assert forall|i: int, j: int| 0 <= i < j < s3.len() implies s3[i].0 != s3[j].0 by {
            assert(s3[i].0.len() != s3[j].0.len());
        }
    }
    assert forall|i: int| 0 <= i < s3.len() implies crate::json::plain_json(#[trigger] s3[i].1, 97) by {
        if i == 1 {
            assert(s3[1].1 == JVal::Num(nat_text(e.1 as nat)));
        }
    }
}

/// With unique keys, reading back an object whose entries read as the
/// store's entries gives the store's entries.
proof fn lemma_read_entries_of(o: JObj, es: Seq<(Seq<char>, EntryModel)>)
    requires
        o.len() == es.len(),
        unique_keys(es),
        forall|i: int| 0 <= i < es.len() ==> (#[trigger] o[i]).0 == es[i].0 && read_entry(o[i].1) == Some(es[i].1),
    ensures
        read_entries(o) == Some(es),
    decreases o.len(),
{
    if o.len() > 0 {
        let p = es.drop_last();
        let q = o.drop_last();
        assert forall|i: int| 0 <= i < p.len() implies (#[trigger] q[i]).0 == p[i].0 && read_entry(q[i].1) == Some(p[i].1) by {
            assert(q[i] == o[i] && p[i] == es[i]);
        }
        assert(unique_keys(p)) by {
            assert forall|i: int, j: int| 0 <= i < j < p.len() implies p[i].0 != p[j].0 by {
                assert(p[i] == es[i] && p[j] == es[j]);
            }
        }
        lemma_read_entries_of(q, p);
        let k = es.last().0;
        assert(o.last() == o[o.len() - 1]);
        assert forall|j: int| 0 <= j < p.len() implies p[j].0 != k by {
            assert(p[j] == es[j]);
        }
        lemma_entry_index(p, k, p.len() as int);
        assert(entry_put(p, k, es.last().1) =~= es);
    }
}

/// The stored document of a store whose times read back is plain JSON
/// and reads as the store's version and entries.
proof fn lemma_store_doc_reads_back(version: u32, es: Seq<(Seq<char>, EntryModel)>)
    requires
        unique_keys(es),
        forall|j: int| 0 <= j < es.len() ==> time_reads_back(#[trigger] es[j].1.2),
    ensures
        entries_json(es) matches Some(o) ==> (crate::json::plain_json(store_doc(version, o), 100)
            && read_format(store_doc(version, o)) == Some((version, es))),
{
    lemma_entries_json_shape(es);
    if let Some(o) = entries_json(es) {
        reveal_strlit("version");
        reveal_strlit("entries");
        assert forall|i: int| 0 <= i < es.len() implies read_entry(#[trigger] o[i].1) == Some(es[i].1)
            && crate::json::plain_json(o[i].1, 98) by {
            assert(time_reads_back(es[i].1.2));
            lemma_entry_json_reads_back(es[i].1);
        }
        lemma_read_entries_of(o, es);
        assert(crate::json::keys_unique(o)) by {
            assert forall|i: int, j: int| 0 <= i < j < o.len() implies o[i].0 != o[j].0 by {
                assert(o[i].0 == es[i].0 && o[j].0 == es[j].0);
            }
        }
        assert(crate::json::plain_json(JVal::Obj(o), 99)) by {
            assert forall|i: int| 0 <= i < o.len() implies crate::json::plain_json(#[trigger] o[i].1, 98) by {
                assert(read_entry(o[i].1) == Some(es[i].1));
            }
        }
        let s0: JObj = Seq::empty();
        crate::json::lemma_find_key(s0, "version"@, 0);
        let num = JVal::Num(nat_text(version as nat));
        let s1 = crate::json::obj_insert(s0, "version"@, num);
        assert(s1 == s0.push(("version"@, num)));
        assert(s1[0].0[0] != "entries"@[0]);
        crate::json::lemma_find_key(s1, "entries"@, 1);
        let s2 = crate::json::obj_insert(s1, "entries"@, JVal::Obj(o));
        assert(s2 == s1.push(("entries"@, JVal::Obj(o))));
        crate::json::lemma_find_key(s2, "version"@, 0);
        crate::json::lemma_find_key(s2, "entries"@, 1);
        lemma_parse_nat_text(version as u64);
        assert(crate::json::keys_unique(s2)) by {
            assert forall|i: int, j: int| 0 <= i < j < s2.len() implies s2[i].0 != s2[j].0 by {
                assert(s2[i].0[0] != s2[j].0[0]);
            }
        }
        assert forall|i: int| 0 <= i < s2.len() implies crate::json::plain_json(#[trigger] s2[i].1, 99) by {
            if i == 0 {
                assert(s2[0].1 == num);
            } else {
                assert(s2[1].1 == JVal::Obj(o));
            }
        }
    }
}

fn read_entry_exec(v: &JsonValue) -> (r: Option<FileOffsetEntry>)
    ensures
        match read_entry(v@) {
            Some(e) => r matches Some(x) && x.path@ == e.0 && x.offset == e.1 && x.updated_at == e.2,
            None => r is None,
        },
{
    let o = v.as_object()?;
    let p = match map_get(o, "path") {
        Some(JsonValue::Str(p)) => p,
        _ => { return None; },
    };
    let n = match map_get(o, "offset") {
        Some(JsonValue::Number(n)) => n,
        _ => { return None; },
    };
    let t = match map_get(o, "updated_at") {
        Some(JsonValue::Str(t)) => t,
        _ => { return None; },
    };
    let off = parse_u64_chars(&chars_of(n.as_str()))?;
    let ts = parse_datetime(t.as_str())?;
    Some(FileOffsetEntry { path: p.clone(), offset: off, updated_at: ts })
}

fn put_entry(entries: &mut Vec<(String, FileOffsetEntry)>, k: String, e: FileOffsetEntry)
    ensures
        entries_model(final(entries)@) == entry_put(entries_model(old(entries)@), k@, (e.path@, e.offset, e.updated_at)),
{
    let ghost m = entries_model(entries@);
    let ghost kv = k@;
    let ghost ev = (e.path@, e.offset, e.updated_at);
    match find_entry(entries, k.as_str()) {
        Some(i) => {
            entries.set(i, (k, e));
            assert(entries_model(entries@) =~= m.update(i as int, (kv, ev)));
        },
        None => {
            entries.push((k, e));
            assert(entries_model(entries@) =~= m.push((kv, ev)));
        },
    }
}

proof fn lemma_read_entries_unique(o: JObj)
    ensures
        read_entries(o) matches Some(es) ==> unique_keys(es),
    decreases o.len(),
{
    if o.len() > 0 {
        lemma_read_entries_unique(o.drop_last());
        if let Some(es) = read_entries(o.drop_last()) {
            if let Some(e) = read_entry(o.last().1) {
                lemma_put_unique(es, o.last().0, e);
            }
        }
    }
}

#[verifier::loop_isolation(false)]
fn read_format_exec(doc: &JsonValue) -> (r: Option<CheckpointFileFormat>)
    ensures
        match read_format(doc@) {
            Some((ver, es)) => r matches Some(f) && f.version == ver && entries_model(f.entries@) == es,
            None => r is None,
        },
{
    let top = doc.as_object()?;
    let n = match map_get(top, "version") {
        Some(JsonValue::Number(n)) => n,
        _ => { return None; },
    };
    let es = match map_get(top, "entries") {
        Some(JsonValue::Object(es)) => es,
        _ => { return None; },
    };
    let ghost em = obj_model(es@);
    proof {
        crate::json::lemma_object_view(*es);
    }
    let mut entries: Vec<(String, FileOffsetEntry)> = Vec::new();
    let mut i: usize = 0;
    assert(em.take(0) =~= Seq::<(Seq<char>, JVal)>::empty());
    assert(entries_model(entries@) =~= Seq::<(Seq<char>, EntryModel)>::empty());
    while i < es.len()
        invariant
            i <= es@.len(),
            em == obj_model(es@),
            read_entries(em.take(i as int)) == Some(entries_model(entries@)),
        decreases es@.len() - i,
    {
        assert(em.take(i + 1).drop_last() =~= em.take(i as int));
        assert(em.take(i + 1).last() == (es@[i as int].0@, es@[i as int].1@));
        match read_entry_exec(&es[i].1) {
            Some(e) => put_entry(&mut entries, es[i].0.clone(), e),
            None => {
                proof {
                    lemma_read_entries_none(em, i as int + 1);
                }
                return None;
            },
        }
        i = i + 1;
    }
    assert(em.take(i as int) =~= em);
    let ver = parse_u64_chars(&chars_of(n.as_str()))?;
    if ver > 0xffff_ffffu64 {
        return None;
    }
    Some(CheckpointFileFormat { version: ver as u32, entries })
}

proof fn lemma_read_entries_none(o: JObj, k: int)
    requires
        0 <= k <= o.len(),
        read_entries(o.take(k)) is None,
    ensures
        read_entries(o) is None,
    decreases o.len() - k,
{
    if k < o.len() {
        assert(o.take(k + 1).drop_last() =~= o.take(k));
        lemma_read_entries_none(o, k + 1);
    } else {
        assert(o.take(k) =~= o);
    }
}

impl CheckpointStore {
    /// The store at `path` as loaded from its text: `None` when there is
    /// no file yet. Text that is not a checkpoint document loads as an
    /// empty store, which costs a few re-read lines, not correctness.
    pub fn from_text(path: &str, text: Option<&str>) -> (r: CheckpointStore)
        ensures
            r.wf(),
            r.path@ == path@,
            (r.data.version, entries_model(r.data.entries@)) == spec_load(match text { Some(t) => Some(t@), None => None }),
    {
        let parsed = match text {
            None => None,
            Some(t) => match json_parse(t) {
                Err(_) => None,
                Ok(doc) => read_format_exec(&doc),
            },
        };
        match parsed {
            Some(f) => {
                proof {
                    if let Some(t) = text {
                        if let Ok(doc) = spec_json_parse(t@) {
                            if let Some(JVal::Obj(es)) = (match doc { JVal::Obj(top) => lookup(top, "entries"@), _ => None }) {
                                lemma_read_entries_unique(es);
                            }
                        }
                    }
                }
                CheckpointStore { path: path.to_owned(), data: f }
            },
            None => {
                let r = CheckpointStore::empty(path);
                assert(entries_model(r.data.entries@) =~= Seq::<(Seq<char>, EntryModel)>::empty());
                r
            },
        }
    }

    /// The text the store is written as (pretty JSON), or an error when an
    /// entry's time cannot be written.
    pub fn to_text(&self) -> (r: Result<String, String>)
        ensures
            match spec_store_text(self.data.version, entries_model(self.data.entries@)) {
                Some(t) => r matches Ok(x) && x@ == t,
                None => r is Err,
            },
            r matches Ok(x) ==> (self.wf() && all_times_plain(entries_model(self.data.entries@))
                ==> spec_load(Some(x@)) == (self.data.version, entries_model(self.data.entries@))),
    {
        let ghost m = entries_model(self.data.entries@);
        let mut es: JsonMap = Vec::new();
        let mut i: usize = 0;
        assert(m.take(0) =~= Seq::<(Seq<char>, EntryModel)>::empty());
        assert(obj_model(es@) =~= Seq::<(Seq<char>, JVal)>::empty());
        while i < self.data.entries.len()
            invariant
                i <= self.data.entries@.len(),
                m == entries_model(self.data.entries@),
                entries_json(m.take(i as int)) == Some(obj_model(es@)),
                forall|j: int| 0 <= j < i ==> (plain_instant(#[trigger] m[j].1.2) ==> time_reads_back(m[j].1.2)),
            decreases self.data.entries@.len() - i,
        {
            assert(m.take(i + 1).drop_last() =~= m.take(i as int));
            let e = &self.data.entries[i].1;
            let t = match rfc3339_text(e.updated_at) {
                Some(t) => t,
                None => {
                    proof {
                        lemma_entries_json_none(m, i as int + 1);
                    }
                    return Err("checkpoint time out of range".to_owned());
                },
            };
            let mut eo: JsonMap = Vec::new();
            assert(obj_model(eo@) =~= Seq::<(Seq<char>, JVal)>::empty());
            map_insert(&mut eo, "path".to_owned(), JsonValue::Str(e.path.clone()));
            map_insert(&mut eo, "offset".to_owned(), JsonValue::Number(u64_to_text(e.offset)));
            map_insert(&mut eo, "updated_at".to_owned(), JsonValue::Str(t));
            let ghost eov = eo;
            proof {
                crate::json::lemma_object_view(eov);
            }
            map_insert(&mut es, self.data.entries[i].0.clone(), JsonValue::Object(eo));
            i = i + 1;
        }
        assert(m.take(i as int) =~= m);
        let mut doc: JsonMap = Vec::new();
        assert(obj_model(doc@) =~= Seq::<(Seq<char>, JVal)>::empty());
        map_insert(&mut doc, "version".to_owned(), JsonValue::Number(u64_to_text(self.data.version as u64)));
        let ghost esv = es;
        proof {
            crate::json::lemma_object_view(esv);
        }
        map_insert(&mut doc, "entries".to_owned(), JsonValue::Object(es));
        let ghost docv = doc;
        proof {
            crate::json::lemma_object_view(docv);
            if self.wf() && all_times_plain(m) {
                lemma_store_doc_reads_back(self.data.version, m);
            }
        }
        Ok(json_pretty(&JsonValue::Object(doc)))
    }
}

proof fn lemma_entries_json_none(es: Seq<(Seq<char>, EntryModel)>, k: int)
    requires
        0 <= k <= es.len(),
        entries_json(es.take(k)) is None,
    ensures
        entries_json(es) is None,
    decreases es.len() - k,
{
    if k < es.len() {
        assert(es.take(k + 1).drop_last() =~= es.take(k));
        lemma_entries_json_none(es, k + 1);
    } else {
        assert(es.take(k) =~= es);
    }
}


/// Law: a store loaded where there is no file yet has no offset for any
/// file.
pub proof fn law_missing_file_loads_empty(s: CheckpointStore, id: FileIdentity)
    requires
        (s.data.version, entries_model(s.data.entries@)) == spec_load(None),
    ensures
        s.spec_get(id) is None,
{
    assert(entries_model(s.data.entries@).len() == 0);
    lemma_entry_index_bounds(entries_model(s.data.entries@), spec_key(id));
}

/// Law: after `set(id, path, offset)`, the store written as text and
/// loaded from that text again gives `offset` for `id` and, for every
/// other file, what the store gave before the set. The text reading back
/// as the store is what `to_text` states for stores whose times are all
/// plain instants.
pub proof fn law_set_then_reload(
    before: CheckpointStore,
    after: CheckpointStore,
    id: FileIdentity,
    path: Seq<char>,
    offset: u64,
    at: Timestamp,
    text: Seq<char>,
    loaded: CheckpointStore,
    other: FileIdentity,
)
    requires
        before.wf(),
        entries_model(after.data.entries@) == entry_put(entries_model(before.data.entries@), spec_key(id), (path, offset, at)),
        spec_load(Some(text)) == (after.data.version, entries_model(after.data.entries@)),
        (loaded.data.version, entries_model(loaded.data.entries@)) == spec_load(Some(text)),
    ensures
        loaded.spec_get(id) == Some(offset),
        other != id ==> loaded.spec_get(other) == before.spec_get(other),
{
    let m = entries_model(before.data.entries@);
    law_get_after_put(m, spec_key(id), (path, offset, at));
    if other != id {
        if spec_key(other) == spec_key(id) {
            law_key_injective(other, id);
        }
        law_put_keeps_others(m, spec_key(id), (path, offset, at), spec_key(other));
    }
}

} // verus!
