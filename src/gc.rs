//! Mark-and-sweep garbage collection: which blobs no manifest references,
//! and which of those are old enough to delete.
use vstd::prelude::*;
use crate::digest::{strip_algo, strip_algo_prefix};
use crate::json::{JsonValue, array_of, field, parsed_json, string_of};
use crate::state::strings_view;
use crate::text::str_eq;
use vstd::string::StringSliceAdditionalSpecFns;

verus! {

broadcast use vstd::seq_lib::group_seq_properties, vstd::seq_lib::group_to_multiset_ensures;

/// Counts of one collection run.
#[derive(Debug)]
pub struct GcStats {
    pub blobs_scanned: usize,
    pub manifests_scanned: usize,
    pub blobs_referenced: usize,
    pub blobs_unreferenced: usize,
    pub blobs_deleted: usize,
    pub bytes_freed: u64,
    pub duration_seconds: u64,
}

/// A stored blob: its repository, digest, size, and modification time in
/// seconds since the epoch (where it could be read).
#[derive(Debug)]
pub struct BlobEntry {
    pub org: String,
    pub repo: String,
    pub digest: String,
    pub size: u64,
    pub modified_secs: Option<u64>,
}

/// The digest named by the `digest` member of `v`, without `sha256:`.
pub open spec fn descriptor_ref(v: JsonValue) -> Option<Seq<char>> {
    match string_of(field(v, "digest"@)) {
        Some(d) => Some(strip_algo(d)),
        None => None,
    }
}

/// Some element of the array member `arr` references `d`.
pub open spec fn array_references(arr: Option<JsonValue>, d: Seq<char>) -> bool {
    match array_of(arr) {
        Some(a) => exists|i: int| 0 <= i < a.len() && descriptor_ref(#[trigger] a[i]) == Some(d),
        None => false,
    }
}

/// Manifest document `v` references digest `d` (stripped of `sha256:`) from
/// `config`, `layers` or `manifests`.
pub open spec fn references(v: JsonValue, d: Seq<char>) -> bool {
    ||| (field(v, "config"@) matches Some(c) && descriptor_ref(c) == Some(d))
    ||| array_references(field(v, "layers"@), d)
    ||| array_references(field(v, "manifests"@), d)
}

/// `s` holds no string twice.
pub open spec fn distinct(s: Seq<Seq<char>>) -> bool {
    forall|i: int, j: int| 0 <= i < j < s.len() ==> s[i] != s[j]
}

/// The digests that document `v` references.
pub open spec fn reference_set(v: JsonValue) -> Set<Seq<char>> {
    Set::new(|x: Seq<char>| references(v, x))
}

/// The digests that the elements of the array member `arr` reference.
pub open spec fn array_reference_set(arr: Option<JsonValue>) -> Set<Seq<char>> {
    Set::new(|x: Seq<char>| array_references(arr, x))
}

/// The digests referenced by the first `n` elements of `a`.
pub open spec fn prefix_reference_set(a: Seq<JsonValue>, n: int) -> Set<Seq<char>> {
    Set::new(|x: Seq<char>| exists|j: int| 0 <= j < n && descriptor_ref(#[trigger] a[j]) == Some(x))
}

/// The strings of a list, as a set.
pub open spec fn string_set(v: Seq<String>) -> Set<Seq<char>> {
    strings_view(v).to_set()
}

/// Adds `d` to a list of distinct strings unless it is there already.
fn insert_distinct(set: &mut Vec<String>, d: &str)
    requires
        distinct(strings_view(old(set)@)),
    ensures
        distinct(strings_view(final(set)@)),
        string_set(final(set)@) == string_set(old(set)@).insert(d@),
{
    let mut i: usize = 0;
    while i < set.len()
        invariant
            i <= set@.len(),
            distinct(strings_view(set@)),
            forall|j: int| 0 <= j < i ==> (#[trigger] strings_view(set@)[j]) != d@,
        decreases set@.len() - i,
    {
        if str_eq(set[i].as_str(), d) {
            proof {
                assert(strings_view(set@)[i as int] == d@);
                assert(strings_view(set@).contains(d@));
                assert(string_set(set@) =~= string_set(set@).insert(d@));
            }
            return;
        }
        i += 1;
    }
    let ghost before = strings_view(set@);
    set.push(String::from_str(d));
    proof {
        assert(strings_view(set@) =~= before.push(d@));
        assert(string_set(set@) =~= before.to_set().insert(d@));
    }
}

/// The digest of a descriptor, without `sha256:`.
fn descriptor_digest(v: &JsonValue) -> (r: Option<&str>)
    ensures
        match r {
            Some(s) => descriptor_ref(*v) == Some(s@),
            None => descriptor_ref(*v) is None,
        },
{
    match v.get("digest") {
        Some(x) => match x.as_str() {
            Some(s) => Some(strip_algo_prefix(s)),
            None => None,
        },
        None => None,
    }
}

/// Adds the digests of the descriptors in the array member `arr`.
fn add_array_references(arr: Option<&JsonValue>, referenced: &mut Vec<String>)
    requires
        distinct(strings_view(old(referenced)@)),
    ensures
        distinct(strings_view(final(referenced)@)),
        string_set(final(referenced)@) == string_set(old(referenced)@) + array_reference_set(
            crate::json::deref_opt(arr),
        ),
{
    let a = match arr {
        Some(x) => match x.as_array() {
            Some(a) => a,
            None => {
                assert(array_reference_set(crate::json::deref_opt(arr)) =~= Set::empty());
                assert(string_set(referenced@) + Set::empty() =~= string_set(referenced@));
                return;
            },
        },
        None => {
            assert(array_reference_set(crate::json::deref_opt(arr)) =~= Set::empty());
            assert(string_set(referenced@) + Set::empty() =~= string_set(referenced@));
            return;
        },
    };
    let ghost start = string_set(referenced@);
    let mut i: usize = 0;
    assert(start + prefix_reference_set(a@, 0) =~= start);
    while i < a.len()
        invariant
            i <= a@.len(),
            array_of(crate::json::deref_opt(arr)) == Some(a@),
            distinct(strings_view(referenced@)),
            string_set(referenced@) == start + prefix_reference_set(a@, i as int),
        decreases a@.len() - i,
    {
        let ghost e = a@[i as int];
        match descriptor_digest(&a[i]) {
            Some(d) => {
                insert_distinct(referenced, d);
                assert(prefix_reference_set(a@, i + 1) =~= prefix_reference_set(a@, i as int).insert(
                    d@,
                ));
            },
            None => {
                assert(prefix_reference_set(a@, i + 1) =~= prefix_reference_set(a@, i as int));
            },
        }
        i += 1;
    }
    assert(prefix_reference_set(a@, a@.len() as int) =~= array_reference_set(
        crate::json::deref_opt(arr),
    ));
}

/// Adds every digest that document `v` references.
pub fn add_references(v: &JsonValue, referenced: &mut Vec<String>)
    requires
        distinct(strings_view(old(referenced)@)),
    ensures
        distinct(strings_view(final(referenced)@)),
        string_set(final(referenced)@) == string_set(old(referenced)@) + reference_set(*v),
{
    let ghost start = string_set(referenced@);
    let ghost config_set: Set<Seq<char>> = match field(*v, "config"@) {
        Some(c) => match descriptor_ref(c) {
            Some(d) => set![d],
            None => Set::empty(),
        },
        None => Set::empty(),
    };
    match v.get("config") {
        Some(c) => match descriptor_digest(c) {
            Some(d) => insert_distinct(referenced, d),
            None => {},
        },
        None => {},
    }
    assert(string_set(referenced@) =~= start + config_set);
    add_array_references(v.get("layers"), referenced);
    add_array_references(v.get("manifests"), referenced);
    assert(string_set(referenced@) =~= start + reference_set(*v));
}

/// Adds every digest that the manifest text references; text that is not
/// JSON adds nothing.
pub fn extract_blob_references(manifest_json: &str, referenced: &mut Vec<String>)
    requires
        distinct(strings_view(old(referenced)@)),
    ensures
        distinct(strings_view(final(referenced)@)),
        string_set(final(referenced)@) == match parsed_json(manifest_json.spec_bytes()) {
            Some(v) => string_set(old(referenced)@) + reference_set(v),
            None => string_set(old(referenced)@),
        },
{
    match JsonValue::parse(manifest_json.as_bytes()) {
        Some(v) => add_references(&v, referenced),
        None => {},
    }
}

/// The digests referenced by the parseable manifests among `texts`.
pub open spec fn manifests_reference_set(texts: Seq<Vec<u8>>) -> Set<Seq<char>> {
    Set::new(
        |x: Seq<char>|
            exists|k: int|
                0 <= k < texts.len() && (parsed_json(#[trigger] texts[k]@) matches Some(v)
                    && references(v, x)),
    )
}

/// The distinct digests referenced by the manifests `texts`; text that
/// does not parse is skipped.
pub fn collect_references(texts: &Vec<Vec<u8>>) -> (r: Vec<String>)
    ensures
        distinct(strings_view(r@)),
        string_set(r@) == manifests_reference_set(texts@),
{
    let mut r: Vec<String> = Vec::new();
    let mut k: usize = 0;
    assert(string_set(r@) =~= manifests_reference_set(texts@.take(0)));
    while k < texts.len()
        invariant
            k <= texts@.len(),
            distinct(strings_view(r@)),
            string_set(r@) == manifests_reference_set(texts@.take(k as int)),
        decreases texts@.len() - k,
    {
        let ghost before = string_set(r@);
        match JsonValue::parse(texts[k].as_slice()) {
            Some(v) => add_references(&v, &mut r),
            None => {},
        }
        proof {
            let t = texts@.take(k + 1);
            assert(t[k as int] == texts@[k as int]);
            assert forall|x: Seq<char>| #[trigger] manifests_reference_set(t).contains(x) <==> string_set(
                r@,
            ).contains(x) by {
                if manifests_reference_set(t).contains(x) {
                    let j = choose|j: int|
                        0 <= j < t.len() && (parsed_json(#[trigger] t[j]@) matches Some(v)
                            && references(v, x));
                    if j < k {
                        assert(texts@.take(k as int)[j] == t[j]);
                        assert(manifests_reference_set(texts@.take(k as int)).contains(x));
                    }
                }
                if string_set(r@).contains(x) && !before.contains(x) {
                    assert(parsed_json(t[k as int]@) matches Some(v) && references(v, x));
                }
                if before.contains(x) {
                    let j = choose|j: int|
                        0 <= j < k && (parsed_json(#[trigger] texts@.take(k as int)[j]@) matches Some(v)
                            && references(v, x));
                    assert(t[j] == texts@.take(k as int)[j]);
                }
            }
            assert(manifests_reference_set(t) =~= string_set(r@));
        }
        k += 1;
    }
    assert(texts@.take(texts@.len() as int) =~= texts@);
    r
}

/// Whether `d` is among `set`.
fn contains_string(set: &Vec<String>, d: &str) -> (r: bool)
    ensures
        r == string_set(set@).contains(d@),
{
    let mut i: usize = 0;
    while i < set.len()
        invariant
            i <= set@.len(),
            forall|j: int| 0 <= j < i ==> (#[trigger] strings_view(set@)[j]) != d@,
        decreases set@.len() - i,
    {
        if str_eq(set[i].as_str(), d) {
            assert(strings_view(set@)[i as int] == d@);
            return true;
        }
        i += 1;
    }
    proof {
        if strings_view(set@).contains(d@) {
            let j = choose|j: int| 0 <= j < strings_view(set@).len() && strings_view(set@)[j] == d@;
            assert(strings_view(set@)[j] != d@);
        }
    }
    false
}

impl BlobEntry {
    /// A field-by-field copy.
    pub fn duplicate(&self) -> (r: BlobEntry)
        ensures
            r == *self,
    {
        BlobEntry {
            org: self.org.clone(),
            repo: self.repo.clone(),
            digest: self.digest.clone(),
            size: self.size,
            modified_secs: self.modified_secs,
        }
    }
}

/// The blobs whose digest is not referenced, in their order; every
/// repository's copy of a digest is listed.
pub open spec fn unreferenced(blobs: Seq<BlobEntry>, refs: Set<Seq<char>>) -> Seq<BlobEntry> {
    blobs.filter(|b: BlobEntry| !refs.contains(b.digest@))
}

/// The blobs whose digest is not among `referenced`.
pub fn mark_unreferenced_blobs(all_blobs: &Vec<BlobEntry>, referenced: &Vec<String>) -> (r: Vec<
    BlobEntry,
>)
    ensures
        r@ == unreferenced(all_blobs@, string_set(referenced@)),
{
    let mut r: Vec<BlobEntry> = Vec::new();
    let mut i: usize = 0;
    while i < all_blobs.len()
        invariant
            i <= all_blobs@.len(),
            r@ == unreferenced(all_blobs@.take(i as int), string_set(referenced@)),
        decreases all_blobs@.len() - i,
    {
        let b = &all_blobs[i];
        proof {
            assert(all_blobs@.take(i + 1).drop_last() =~= all_blobs@.take(i as int));
            reveal(Seq::filter);
        }
        if !contains_string(referenced, b.digest.as_str()) {
            r.push(b.duplicate());
        }
        i += 1;
    }
    assert(all_blobs@.take(all_blobs@.len() as int) =~= all_blobs@);
    r
}

/// An unreferenced blob modified at `modified` is old enough to delete at
/// `now`: its age (zero if the time lies ahead) is at least the grace period.
pub open spec fn past_grace(now: u64, modified: u64, grace_period_hours: u64) -> bool {
    (if now >= modified {
        now - modified
    } else {
        0
    }) >= grace_period_hours * 3600
}

/// Whether a blob modified at `modified_secs` is past the grace period at
/// `now_secs`.
pub fn is_past_grace(now_secs: u64, modified_secs: u64, grace_period_hours: u64) -> (r: bool)
    ensures
        r == past_grace(now_secs, modified_secs, grace_period_hours),
{
    let age = now_secs.saturating_sub(modified_secs);
    if grace_period_hours > u64::MAX / 3600 {
        assert(grace_period_hours * 3600 > u64::MAX) by (nonlinear_arith)
            requires
                grace_period_hours > u64::MAX / 3600,
        ;
        return false;
    }
    assert(grace_period_hours * 3600 <= u64::MAX) by (nonlinear_arith)
        requires
            grace_period_hours <= u64::MAX / 3600,
    ;
    age >= grace_period_hours * 3600
}

/// The blob is swept: not dry-run, its time is known, and it is past grace.
pub open spec fn swept(b: BlobEntry, now: u64, grace_period_hours: u64) -> bool {
    b.modified_secs matches Some(m) && past_grace(now, m, grace_period_hours)
}

/// What a collection run decided: its counts so far, and the blobs to delete.
#[derive(Debug)]
pub struct GcPlan {
    pub stats: GcStats,
    pub to_delete: Vec<BlobEntry>,
}

/// The blobs of `candidates` that are swept.
pub open spec fn sweep_selection(candidates: Seq<BlobEntry>, now: u64, grace_period_hours: u64) -> Seq<
    BlobEntry,
> {
    candidates.filter(|b: BlobEntry| swept(b, now, grace_period_hours))
}

/// Runs the mark phase over the manifest texts and the stored blobs, and
/// selects for deletion (unless `dry_run`) the unreferenced blobs past the
/// grace period. Deletions and the bytes they free are recorded as the
/// files are removed.
pub fn run_gc(
    manifests: &Vec<Vec<u8>>,
    blobs: &Vec<BlobEntry>,
    now_secs: u64,
    dry_run: bool,
    grace_period_hours: u64,
) -> (r: GcPlan)
    ensures
        r.stats.blobs_scanned == blobs@.len(),
        r.stats.manifests_scanned == manifests@.len(),
        r.stats.blobs_referenced == manifests_reference_set(manifests@).len(),
        r.stats.blobs_unreferenced == unreferenced(
            blobs@,
            manifests_reference_set(manifests@),
        ).len(),
        r.stats.blobs_deleted == 0,
        r.stats.bytes_freed == 0,
        r.stats.duration_seconds == 0,
        dry_run ==> r.to_delete@.len() == 0,
        !dry_run ==> r.to_delete@ == sweep_selection(
            unreferenced(blobs@, manifests_reference_set(manifests@)),
            now_secs,
            grace_period_hours,
        ),
{
    let referenced = collect_references(manifests);
    proof {
        strings_view(referenced@).unique_seq_to_set();
    }
    let unref = mark_unreferenced_blobs(blobs, &referenced);
    let mut to_delete: Vec<BlobEntry> = Vec::new();
    if !dry_run {
        let mut i: usize = 0;
        while i < unref.len()
            invariant
                i <= unref@.len(),
                to_delete@ == sweep_selection(unref@.take(i as int), now_secs, grace_period_hours),
            decreases unref@.len() - i,
        {
            let b = &unref[i];
            proof {
                assert(unref@.take(i + 1).drop_last() =~= unref@.take(i as int));
                reveal(Seq::filter);
            }
            match b.modified_secs {
                Some(m) => {
                    if is_past_grace(now_secs, m, grace_period_hours) {
                        to_delete.push(b.duplicate());
                    }
                },
                None => {},
            }
            i += 1;
        }
        assert(unref@.take(unref@.len() as int) =~= unref@);
    }
    let stats = GcStats {
        blobs_scanned: blobs.len(),
        manifests_scanned: manifests.len(),
        blobs_referenced: referenced.len(),
        blobs_unreferenced: unref.len(),
        blobs_deleted: 0,
        bytes_freed: 0,
        duration_seconds: 0,
    };
    GcPlan { stats, to_delete }
}

impl GcStats {
    /// Records that a blob of `size` bytes was deleted.
    pub fn record_deletion(&mut self, size: u64)
        requires
            old(self).blobs_deleted < usize::MAX,
            old(self).bytes_freed + size <= u64::MAX,
        ensures
            final(self).blobs_deleted == old(self).blobs_deleted + 1,
            final(self).bytes_freed == old(self).bytes_freed + size,
            final(self).blobs_scanned == old(self).blobs_scanned,
            final(self).manifests_scanned == old(self).manifests_scanned,
            final(self).blobs_referenced == old(self).blobs_referenced,
            final(self).blobs_unreferenced == old(self).blobs_unreferenced,
            final(self).duration_seconds == old(self).duration_seconds,
    {
        self.blobs_deleted = self.blobs_deleted + 1;
        self.bytes_freed = self.bytes_freed + size;
    }
}

/// Collection safety: with a grace period of zero, a blob that is not
/// selected for deletion (and whose time is known) is referenced by some
/// manifest; and no referenced blob is ever selected.
pub proof fn lemma_gc_keeps_only_referenced(
    blobs: Seq<BlobEntry>,
    refs: Set<Seq<char>>,
    now: u64,
    grace_period_hours: u64,
)
    ensures
        forall|b: BlobEntry| #[trigger]
            sweep_selection(unreferenced(blobs, refs), now, grace_period_hours).contains(b)
                ==> !refs.contains(b.digest@),
        grace_period_hours == 0 ==> forall|i: int|
            0 <= i < blobs.len() && blobs[i].modified_secs is Some && !sweep_selection(
                unreferenced(blobs, refs),
                now,
                0,
            ).contains(#[trigger] blobs[i]) ==> refs.contains(blobs[i].digest@),
{
    let un = unreferenced(blobs, refs);
    let pred = |b: BlobEntry| !refs.contains(b.digest@);
    let sw = |b: BlobEntry| swept(b, now, grace_period_hours);
    broadcast use vstd::seq_lib::group_filter_ensures;

    assert forall|b: BlobEntry| #[trigger]
        sweep_selection(un, now, grace_period_hours).contains(b) implies !refs.contains(
        b.digest@,
    ) by {
        un.lemma_filter_contains_rev(sw, b);
        let k = choose|k: int| 0 <= k < un.len() && un[k] == b;
        assert(pred(un[k]));
    }
    if grace_period_hours == 0 {
        assert forall|i: int|
            0 <= i < blobs.len() && blobs[i].modified_secs is Some && !sweep_selection(
                un,
                now,
                0,
            ).contains(#[trigger] blobs[i]) implies refs.contains(blobs[i].digest@) by {
            if !refs.contains(blobs[i].digest@) {
                assert(un.contains(blobs[i]));
                let k = choose|k: int| 0 <= k < un.len() && un[k] == blobs[i];
                assert(swept(un[k], now, 0));
            }
        }
    }
}

} // verus!
