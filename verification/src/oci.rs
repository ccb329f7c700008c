//! A plain-value model of the parts of an OCI runtime spec the shim
//! reads: the rootfs path, the annotations and the prestart hooks.
//! The driver loads `config.json` and hands the values over; the
//! grouping and annotation logic here is verified.

use vstd::prelude::*;

verus! {

/// An OCI lifecycle hook: the program path, its argument vector (whose
/// first element, when present, is the argv0 the child sees) and its
/// environment as `KEY=VALUE` entries.
#[derive(Clone)]
pub struct OciHook {
    pub path: String,
    pub args: Vec<String>,
    pub env: Vec<String>,
}

/// The slice of an OCI runtime spec the task service consults.
#[derive(Clone)]
pub struct OciSpec {
    /// The rootfs path, when the spec declares one.
    pub root: Option<String>,
    /// The annotation map as key/value pairs with unique keys.
    pub annotations: Vec<(String, String)>,
    /// The prestart hooks, in execution order.
    pub prestart_hooks: Vec<OciHook>,
}

/// Whether a key is present among the annotation entries.
pub open spec fn amap_has(s: Seq<(String, String)>, key: Seq<char>) -> bool {
    exists|j: int| 0 <= j < s.len() && #[trigger] s[j].0@ == key
}

/// All annotation entries carry distinct keys.
pub open spec fn amap_unique(s: Seq<(String, String)>) -> bool {
    forall|j: int, k: int| 0 <= j < k < s.len() ==> #[trigger] s[j].0@ != #[trigger] s[k].0@
}

/// The index of the entry with the given key.
pub open spec fn amap_idx(s: Seq<(String, String)>, key: Seq<char>) -> int {
    choose|j: int| 0 <= j < s.len() && #[trigger] s[j].0@ == key
}

/// The value stored under a key, if any.
pub open spec fn amap_get(s: Seq<(String, String)>, key: Seq<char>) -> Option<Seq<char>> {
    if amap_has(s, key) {
        Some(s[amap_idx(s, key)].1@)
    } else {
        None
    }
}

/// With unique keys, any position with a matching key is the one
/// `amap_idx` denotes.
pub proof fn lemma_amap_idx(s: Seq<(String, String)>, key: Seq<char>, i: int)
    requires
        amap_unique(s),
        0 <= i < s.len(),
        s[i].0@ == key,
    ensures
        amap_idx(s, key) == i,
        amap_has(s, key),
        amap_get(s, key) == Some(s[i].1@),
{
    assert(0 <= i < s.len() && s[i].0@ == key);
    let j = amap_idx(s, key);
    if j != i {
        if j < i {
            assert(s[j].0@ != s[i].0@);
        } else {
            assert(s[i].0@ != s[j].0@);
        }
    }
}

/// The position of the entry for `key`, if one exists.
fn amap_find(v: &Vec<(String, String)>, key: &String) -> (r: Option<usize>)
    requires
        amap_unique(v@),
    ensures
        r matches Some(i) ==> {
            &&& 0 <= i < v@.len()
            &&& v@[i as int].0@ == key@
            &&& amap_idx(v@, key@) == i
            &&& amap_get(v@, key@) == Some(v@[i as int].1@)
        },
        r is None ==> !amap_has(v@, key@) && amap_get(v@, key@) is None,
{
    let n = v.len();
    let mut i: usize = 0;
    while i < n
        invariant
            amap_unique(v@),
            n == v@.len(),
            0 <= i <= n,
            forall|j: int| 0 <= j < i ==> #[trigger] v@[j].0@ != key@,
        decreases n - i,
    {
        if v[i].0 == *key {
            proof {
                lemma_amap_idx(v@, key@, i as int);
            }
            return Some(i);
        }
        i += 1;
    }
    None
}

/// Whether a key is present among the entries; duplicates need not be
/// absent for mere presence.
pub fn amap_contains_key(v: &Vec<(String, String)>, key: &String) -> (r: bool)
    ensures
        r == amap_has(v@, key@),
{
    let n = v.len();
    let mut i: usize = 0;
    while i < n
        invariant
            n == v@.len(),
            0 <= i <= n,
            forall|j: int| 0 <= j < i ==> #[trigger] v@[j].0@ != key@,
        decreases n - i,
    {
        if v[i].0 == *key {
            return true;
        }
        i += 1;
    }
    false
}

/// The value stored under `key`, if any.
pub fn amap_lookup<'a>(v: &'a Vec<(String, String)>, key: &String) -> (r: Option<&'a String>)
    requires
        amap_unique(v@),
    ensures
        r matches Some(s) ==> amap_get(v@, key@) == Some(s@),
        r is None <==> amap_get(v@, key@) is None,
{
    match amap_find(v, key) {
        Some(i) => Some(&v[i].1),
        None => None,
    }
}

/// Stores `val` under `key`, replacing any previous value; every other
/// key keeps its value.
pub fn amap_set(v: &mut Vec<(String, String)>, key: String, val: String)
    requires
        amap_unique(old(v)@),
    ensures
        amap_unique(final(v)@),
        amap_get(final(v)@, key@) == Some(val@),
        forall|k: Seq<char>| k != key@ ==> amap_get(final(v)@, k) == amap_get(old(v)@, k),
{
    let ghost orig = v@;
    let ghost gk = key@;
    let ghost gv = val@;
    match amap_find(v, &key) {
        Some(i) => {
            let _ = v.remove(i);
            let ghost mid = v@;
            v.push((key, val));
            proof {
                let gi = i as int;
                let fin = v@;
                assert(mid == orig.remove(gi));
                assert(forall|j: int| 0 <= j < gi ==> #[trigger] fin[j] == orig[j]);
                assert(forall|j: int|
                    gi <= j < orig.len() - 1 ==> #[trigger] fin[j] == orig[j + 1]);
                amap_set_replace_facts(orig, fin, gi, gk, gv);
            }
        },
        None => {
            v.push((key, val));
            proof {
                let fin = v@;
                assert(fin.len() == orig.len() + 1);
                assert(forall|j: int| 0 <= j < orig.len() ==> #[trigger] fin[j] == orig[j]);
                amap_set_append_facts(orig, fin, gk, gv);
            }
        },
    }
}

/// After removing the old entry for `key` at position `i` and appending
/// a fresh `(key, val)` entry, the map has `val` under `key` and is
/// otherwise unchanged.
proof fn amap_set_replace_facts(
    orig: Seq<(String, String)>,
    fin: Seq<(String, String)>,
    i: int,
    key: Seq<char>,
    val: Seq<char>,
)
    requires
        amap_unique(orig),
        0 <= i < orig.len(),
        orig[i].0@ == key,
        fin.len() == orig.len(),
        forall|j: int| 0 <= j < i ==> fin[j] == orig[j],
        forall|j: int| i <= j < orig.len() - 1 ==> fin[j] == orig[j + 1],
        fin[fin.len() - 1].0@ == key,
        fin[fin.len() - 1].1@ == val,
    ensures
        amap_unique(fin),
        amap_get(fin, key) == Some(val),
        forall|k: Seq<char>| k != key ==> amap_get(fin, k) == amap_get(orig, k),
{
    let last = fin.len() - 1;
    assert forall|j: int, l: int| 0 <= j < l < fin.len() implies #[trigger] fin[j].0@
        != #[trigger] fin[l].0@ by {
        if l < last {
            let oj = if j < i { j } else { j + 1 };
            let ol = if l < i { l } else { l + 1 };
            assert(orig[oj].0@ != orig[ol].0@);
        } else {
            let oj = if j < i { j } else { j + 1 };
            if oj != i {
                if oj < i {
                    assert(orig[oj].0@ != orig[i].0@);
                } else {
                    assert(orig[i].0@ != orig[oj].0@);
                }
            }
        }
    }
    lemma_amap_idx(fin, key, last);
    assert forall|k: Seq<char>| k != key implies amap_get(fin, k) == amap_get(orig, k) by {
        if amap_has(orig, k) {
            let oj = amap_idx(orig, k);
            assert(orig[oj].0@ == k);
            let fj = if oj < i { oj } else { oj - 1 };
            assert(oj != i);
            assert(fin[fj] == orig[oj]);
            lemma_amap_idx(fin, k, fj);
            lemma_amap_idx(orig, k, oj);
        } else {
            if amap_has(fin, k) {
                let fj = amap_idx(fin, k);
                assert(fin[fj].0@ == k);
                assert(fj != last);
                let oj = if fj < i { fj } else { fj + 1 };
                assert(orig[oj].0@ == k);
            }
        }
    }
}

/// After appending a `(key, val)` entry for an absent key, the map has
/// `val` under `key` and is otherwise unchanged.
proof fn amap_set_append_facts(
    orig: Seq<(String, String)>,
    fin: Seq<(String, String)>,
    key: Seq<char>,
    val: Seq<char>,
)
    requires
        amap_unique(orig),
        !amap_has(orig, key),
        fin.len() == orig.len() + 1,
        forall|j: int| 0 <= j < orig.len() ==> #[trigger] fin[j] == orig[j],
        fin[fin.len() - 1].0@ == key,
        fin[fin.len() - 1].1@ == val,
    ensures
        amap_unique(fin),
        amap_get(fin, key) == Some(val),
        forall|k: Seq<char>| k != key ==> amap_get(fin, k) == amap_get(orig, k),
{
    let last = fin.len() - 1;
    assert forall|j: int, l: int| 0 <= j < l < fin.len() implies #[trigger] fin[j].0@
        != #[trigger] fin[l].0@ by {
        if l < last {
            assert(orig[j].0@ != orig[l].0@);
        } else {
            assert(fin[j] == orig[j]);
        }
    }
    lemma_amap_idx(fin, key, last);
    assert forall|k: Seq<char>| k != key implies amap_get(fin, k) == amap_get(orig, k) by {
        if amap_has(orig, k) {
            let oj = amap_idx(orig, k);
            assert(orig[oj].0@ == k);
            assert(fin[oj] == orig[oj]);
            lemma_amap_idx(fin, k, oj);
            lemma_amap_idx(orig, k, oj);
        } else {
            if amap_has(fin, k) {
                let fj = amap_idx(fin, k);
                assert(fin[fj].0@ == k);
                assert(fj != last);
                assert(orig[fj].0@ == k);
            }
        }
    }
}

/// The orchestrator annotation that names the pod sandbox a container
/// belongs to.
pub open spec fn cri_sandbox_annotation() -> Seq<char> {
    "io.kubernetes.cri.sandbox-id"@
}

/// Whether a create request is for the pod's sandbox (pause) container:
/// its spec carries the CRI sandbox annotation and the shim serves no
/// task yet. The per-container shim sees the pod's pause container
/// first; every later container that names the same pod is a real
/// workload.
pub open spec fn spec_cri_sandbox_create(
    annotations: Seq<(String, String)>,
    existing_tasks: int,
) -> bool {
    amap_has(annotations, cri_sandbox_annotation()) && existing_tasks == 0
}

/// The annotation key as an owned string.
pub fn cri_sandbox_key() -> (s: String)
    ensures
        s@ == cri_sandbox_annotation(),
{
    "io.kubernetes.cri.sandbox-id".to_owned()
}

impl OciSpec {
    /// The spec's annotation map is well-formed: keys are unique.
    pub open spec fn wf(&self) -> bool {
        amap_unique(self.annotations@)
    }
}

impl Default for OciSpec {
    /// An empty spec: no rootfs, no annotations, no hooks.
    fn default() -> (s: Self)
        ensures
            s.wf(),
            s.root is None,
            s.annotations@.len() == 0,
            s.prestart_hooks@.len() == 0,
    {
        OciSpec { root: None, annotations: Vec::new(), prestart_hooks: Vec::new() }
    }
}

/// Marks a spec as belonging to the CRI sandbox `id`: starting from the
/// given spec (or an empty one), the sandbox annotation is set to `id`
/// and everything else is kept.
pub fn with_cri_sandbox(spec: Option<OciSpec>, id: String) -> (r: OciSpec)
    requires
        spec matches Some(s) ==> s.wf(),
    ensures
        r.wf(),
        amap_get(r.annotations@, cri_sandbox_annotation()) == Some(id@),
        forall|k: Seq<char>|
            k != cri_sandbox_annotation() ==> amap_get(r.annotations@, k) == (match spec {
                Some(s) => amap_get(s.annotations@, k),
                None => None::<Seq<char>>,
            }),
        spec matches Some(s) ==> r.root == s.root && r.prestart_hooks == s.prestart_hooks,
        spec is None ==> r.root is None && r.prestart_hooks@.len() == 0,
{
    let mut s = match spec {
        Some(s) => s,
        None => Default::default(),
    };
    amap_set(&mut s.annotations, cri_sandbox_key(), id);
    s
}

/// The sandbox grouping of a container: the CRI sandbox annotation when
/// present, the container's own id otherwise. Containers that share a
/// grouping share one shim process.
pub fn sandbox_grouping(spec: &OciSpec, id: &String) -> (r: String)
    requires
        spec.wf(),
    ensures
        match amap_get(spec.annotations@, cri_sandbox_annotation()) {
            Some(v) => r@ == v,
            None => r@ == id@,
        },
{
    let key = cri_sandbox_key();
    match amap_lookup(&spec.annotations, &key) {
        Some(v) => v.clone(),
        None => id.clone(),
    }
}

} // verus!
