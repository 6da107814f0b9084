//! The sources from which engines and models are downloaded.

use vstd::prelude::*;
use crate::text::same_text;

verus! {

/// Calls `uuid::Uuid::new_v4` and writes the identifier out. It is random, so
/// nothing is claimed of it. The call fails only where the system has no
/// random bytes to give.
#[verifier::external_body]
pub(crate) fn fresh_id() -> (r: String) {
    uuid::Uuid::new_v4().to_string()
}

/// A place to download from.
#[derive(Debug)]
pub struct MirrorSource {
    pub id: String,
    pub name: String,
    pub mirror_type: String,
    pub url: String,
    pub proxy_api: bool,
    pub builtin: bool,
}

/// A mirror with its texts as sequences of characters.
pub struct MirrorView {
    pub id: Seq<char>,
    pub name: Seq<char>,
    pub mirror_type: Seq<char>,
    pub url: Seq<char>,
    pub proxy_api: bool,
    pub builtin: bool,
}

impl View for MirrorSource {
    type V = MirrorView;

    open spec fn view(&self) -> MirrorView {
        MirrorView {
            id: self.id@,
            name: self.name@,
            mirror_type: self.mirror_type@,
            url: self.url@,
            proxy_api: self.proxy_api,
            builtin: self.builtin,
        }
    }
}

pub open spec fn mirror_views(v: Seq<MirrorSource>) -> Seq<MirrorView> {
    Seq::new(v.len(), |i: int| v[i]@)
}

/// The mirrors that are always there: GitHub itself and one proxy.
pub open spec fn builtin_views() -> Seq<MirrorView> {
    seq![
        MirrorView {
            id: "github"@,
            name: "GitHub (Official)"@,
            mirror_type: "github"@,
            url: "https://github.com"@,
            proxy_api: false,
            builtin: true,
        },
        MirrorView {
            id: "ghfast"@,
            name: "GHFast"@,
            mirror_type: "proxy"@,
            url: "https://ghfast.top"@,
            proxy_api: false,
            builtin: true,
        },
    ]
}

pub fn builtin_mirrors() -> (r: Vec<MirrorSource>)
    ensures
        mirror_views(r@) == builtin_views(),
{
    let mut out: Vec<MirrorSource> = Vec::new();
    out.push(
        MirrorSource {
            id: "github".to_string(),
            name: "GitHub (Official)".to_string(),
            mirror_type: "github".to_string(),
            url: "https://github.com".to_string(),
            proxy_api: false,
            builtin: true,
        },
    );
    out.push(
        MirrorSource {
            id: "ghfast".to_string(),
            name: "GHFast".to_string(),
            mirror_type: "proxy".to_string(),
            url: "https://ghfast.top".to_string(),
            proxy_api: false,
            builtin: true,
        },
    );
    assert(mirror_views(out@) =~= builtin_views());
    out
}

/// All mirrors: the built-in ones, then the user's own where their list could
/// be read.
pub fn get_mirrors_list(custom: Option<Vec<MirrorSource>>) -> (r: Vec<MirrorSource>)
    ensures
        mirror_views(r@) == builtin_views() + match custom {
            Some(c) => mirror_views(c@),
            None => Seq::empty(),
        },
{
    let mut out = builtin_mirrors();
    match custom {
        Some(mut c) => {
            let ghost own = c@;
            let ghost base = out@;
            out.append(&mut c);
            assert(mirror_views(out@) =~= mirror_views(base) + mirror_views(own));
        },
        None => {
            assert(mirror_views(out@) =~= builtin_views() + Seq::<MirrorView>::empty());
        },
    }
    out
}

/// A mirror of the user's own, under the given identifier.
pub fn custom_mirror(id: String, name: String, mirror_type: String, url: String, proxy_api: bool) -> (r:
    MirrorSource)
    ensures
        r == (MirrorSource { id, name, mirror_type, url, proxy_api, builtin: false }),
{
    MirrorSource { id, name, mirror_type, url, proxy_api, builtin: false }
}

/// Adds a mirror of the user's own to their list, under a fresh identifier.
/// Handed back are the list with the mirror at its end, and the mirror's
/// identifier.
pub fn sdcpp_add_mirror(
    custom: Vec<MirrorSource>,
    name: String,
    mirror_type: String,
    url: String,
    proxy_api: bool,
) -> (r: (Vec<MirrorSource>, String))
    ensures
        r.0@.len() == custom@.len() + 1,
        r.0@.drop_last() == custom@,
        r.0@.last() == (MirrorSource {
            id: r.0@.last().id,
            name,
            mirror_type,
            url,
            proxy_api,
            builtin: false,
        }),
        r.1@ == r.0@.last().id@,
{
    let id = fresh_id();
    let shown = id.clone();
    let mirror = custom_mirror(id, name, mirror_type, url, proxy_api);
    let mut out = custom;
    out.push(mirror);
    assert(out@.drop_last() =~= custom@);
    (out, shown)
}

/// The mirrors whose identifier is not `id`, in their order.
pub open spec fn without_id(mirrors: Seq<MirrorSource>, id: Seq<char>) -> Seq<MirrorSource>
    decreases mirrors.len(),
{
    if mirrors.len() == 0 {
        Seq::empty()
    } else if mirrors.last().id@ != id {
        without_id(mirrors.drop_last(), id).push(mirrors.last())
    } else {
        without_id(mirrors.drop_last(), id)
    }
}

/// Removes the mirrors with the given identifier from the user's list and
/// tells whether there was one.
pub fn sdcpp_remove_mirror(custom: Vec<MirrorSource>, id: &str) -> (r: (Vec<MirrorSource>, bool))
    ensures
        r.0@ == without_id(custom@, id@),
        r.1 == (without_id(custom@, id@).len() < custom@.len()),
{
    let ghost all = custom@;
    let total: usize = custom.len();
    let mut rest = custom;
    let mut kept_reversed: Vec<MirrorSource> = Vec::new();
    while rest.len() > 0
        invariant
            rest@ == all.take(rest@.len() as int),
            rest@.len() <= all.len(),
            without_id(all, id@) == without_id(rest@, id@) + kept_reversed@.reverse(),
        decreases rest@.len(),
    {
        let ghost before = rest@;
        let ghost kept_before = kept_reversed@;
        let mirror = rest.pop().unwrap();
        proof {
            assert(rest@ =~= before.drop_last());
            assert(mirror == before.last());
            assert(rest@ =~= all.take(rest@.len() as int));
        }
        if !same_text(mirror.id.as_str(), id) {
            kept_reversed.push(mirror);
            proof {
                assert(kept_reversed@.reverse() =~= seq![mirror] + kept_before.reverse());
                assert(without_id(before, id@) + kept_before.reverse() =~= without_id(rest@, id@)
                    + kept_reversed@.reverse());
            }
        }
    }
    let mut out: Vec<MirrorSource> = Vec::new();
    proof {
        assert(all.take(all.len() as int) =~= all);
        assert(without_id(all, id@) =~= out@ + kept_reversed@.reverse());
    }
    while kept_reversed.len() > 0
        invariant
            without_id(all, id@) == out@ + kept_reversed@.reverse(),
        decreases kept_reversed@.len(),
    {
        let ghost before = kept_reversed@;
        let ghost out_before = out@;
        let mirror = kept_reversed.pop().unwrap();
        out.push(mirror);
        proof {
            assert(kept_reversed@ =~= before.drop_last());
            assert(before.reverse() =~= seq![mirror] + kept_reversed@.reverse());
            assert(out_before + before.reverse() =~= out@ + kept_reversed@.reverse());
        }
    }
    assert(without_id(all, id@) =~= out@);
    let removed = out.len() < total;
    (out, removed)
}

/// The address that is asked to measure a mirror: GitHub's API for a mirror
/// of the `github` kind, else the mirror's own address.
pub fn mirror_test_url(mirror: &MirrorSource) -> (r: String)
    ensures
        r@ == (if mirror.mirror_type@ == "github"@ {
            "https://api.github.com"@
        } else {
            mirror.url@
        }),
{
    if same_text(mirror.mirror_type.as_str(), "github") {
        "https://api.github.com".to_string()
    } else {
        mirror.url.clone()
    }
}

/// What measuring one mirror gave. The latency is in whole milliseconds.
#[derive(Debug)]
pub struct MirrorProbe {
    pub mirror_id: String,
    pub latency_ms: Option<u64>,
    pub success: bool,
    pub error: Option<String>,
}

/// A probe that was answered after `latency_ms`.
pub fn probe_answered(mirror_id: String, latency_ms: u64) -> (r: MirrorProbe)
    ensures
        r == (MirrorProbe { mirror_id, latency_ms: Some(latency_ms), success: true, error: None }),
{
    MirrorProbe { mirror_id, latency_ms: Some(latency_ms), success: true, error: None }
}

/// A probe that failed for `reason`.
pub fn probe_failed(mirror_id: String, reason: String) -> (r: MirrorProbe)
    ensures
        r == (MirrorProbe { mirror_id, latency_ms: None, success: false, error: Some(reason) }),
{
    MirrorProbe { mirror_id, latency_ms: None, success: false, error: Some(reason) }
}

/// The latency by which a probe is ranked: its own, or the largest there is
/// where it has none.
pub open spec fn ranked_latency(p: MirrorProbe) -> u64 {
    match p.latency_ms {
        Some(l) => l,
        None => u64::MAX,
    }
}

/// `i` is the best of the probes: it succeeded, none that succeeded was
/// faster, and none before it was as fast.
pub open spec fn is_best(probes: Seq<MirrorProbe>, i: int) -> bool {
    &&& 0 <= i < probes.len()
    &&& probes[i].success
    &&& forall|j: int|
        0 <= j < probes.len() && probes[j].success ==> ranked_latency(probes[i]) <= ranked_latency(
            #[trigger] probes[j],
        )
    &&& forall|j: int|
        0 <= j < i && probes[j].success ==> ranked_latency(probes[i]) < ranked_latency(
            #[trigger] probes[j],
        )
}

/// The fastest of the probes that succeeded; of equally fast ones the first.
pub fn best_probe(probes: &Vec<MirrorProbe>) -> (r: Option<usize>)
    ensures
        match r {
            Some(i) => is_best(probes@, i as int),
            None => forall|j: int| 0 <= j < probes@.len() ==> !(#[trigger] probes@[j]).success,
        },
{
    let mut best: Option<usize> = None;
    let mut i: usize = 0;
    while i < probes.len()
        invariant
            i <= probes.len(),
            match best {
                Some(b) => is_best(probes@.take(i as int), b as int),
                None => forall|j: int| 0 <= j < i ==> !(#[trigger] probes@[j]).success,
            },
        decreases probes.len() - i,
    {
        let ghost seen = probes@.take(i as int);
        let ghost next = probes@.take(i + 1);
        proof {
            assert forall|j: int| 0 <= j < i implies #[trigger] next[j] == seen[j] by {}
            assert(next[i as int] == probes@[i as int]);
        }
        if probes[i].success {
            let latency: u64 = match probes[i].latency_ms {
                Some(l) => l,
                None => u64::MAX,
            };
            match best {
                Some(b) => {
                    let best_latency: u64 = match probes[b].latency_ms {
                        Some(l) => l,
                        None => u64::MAX,
                    };
                    proof {
                        assert(seen[b as int] == probes@[b as int]);
                    }
                    if latency < best_latency {
                        best = Some(i);
                        proof {
                            assert forall|j: int|
                                0 <= j < next.len() && next[j].success implies ranked_latency(
                                next[i as int],
                            ) <= ranked_latency(#[trigger] next[j]) by {
                                if j < i {
                                    assert(seen[j].success);
                                }
                            }
                            assert forall|j: int|
                                0 <= j < i && next[j].success implies ranked_latency(
                                next[i as int],
                            ) < ranked_latency(#[trigger] next[j]) by {
                                assert(seen[j].success);
                            }
                        }
                    } else {
                        proof {
                            assert forall|j: int|
                                0 <= j < next.len() && next[j].success implies ranked_latency(
                                next[b as int],
                            ) <= ranked_latency(#[trigger] next[j]) by {
                                if j < i {
                                    assert(seen[j].success);
                                }
                            }
                            assert forall|j: int|
                                0 <= j < b && next[j].success implies ranked_latency(
                                next[b as int],
                            ) < ranked_latency(#[trigger] next[j]) by {
                                assert(seen[j].success);
                            }
                        }
                    }
                },
                None => {
                    best = Some(i);
                    proof {
                        assert forall|j: int|
                            0 <= j < next.len() && next[j].success implies ranked_latency(
                            next[i as int],
                        ) <= ranked_latency(#[trigger] next[j]) by {
                            if j < i {
                                assert(!probes@[j].success);
                            }
                        }
                    }
                },
            }
        } else {
            proof {
                match best {
                    Some(b) => {
                        assert(seen[b as int] == next[b as int]);
                        assert forall|j: int|
                            0 <= j < next.len() && next[j].success implies ranked_latency(
                            next[b as int],
                        ) <= ranked_latency(#[trigger] next[j]) by {
                            if j < i {
                                assert(seen[j].success);
                            }
                        }
                        assert forall|j: int|
                            0 <= j < b && next[j].success implies ranked_latency(next[b as int])
                            < ranked_latency(#[trigger] next[j]) by {
                            assert(seen[j].success);
                        }
                    },
                    None => {},
                }
            }
        }
        i += 1;
    }
    proof {
        assert(probes@.take(probes@.len() as int) =~= probes@);
    }
    best
}

/// The index of the first mirror with the given identifier.
pub open spec fn has_id_at(mirrors: Seq<MirrorSource>, id: Seq<char>, i: int) -> bool {
    0 <= i < mirrors.len() && mirrors[i].id@ == id && forall|j: int|
        0 <= j < i ==> (#[trigger] mirrors[j]).id@ != id
}

/// Chooses the mirror to use from what measuring them gave: the first mirror
/// with the identifier of the best probe. Where no probe succeeded the answer
/// is `All mirrors failed`; where the best probe is of no known mirror, `No
/// matching mirror found`.
pub fn sdcpp_auto_select_mirror(mirrors: Vec<MirrorSource>, probes: &Vec<MirrorProbe>) -> (r:
    Result<MirrorSource, String>)
    ensures
        match r {
            Ok(m) => exists|b: int, i: int|
                is_best(probes@, b) && has_id_at(mirrors@, probes@[b].mirror_id@, i) && m
                    == mirrors@[i],
            Err(e) => if forall|j: int| 0 <= j < probes@.len() ==> !(#[trigger] probes@[j]).success {
                e@ == "All mirrors failed"@
            } else {
                e@ == "No matching mirror found"@ && exists|b: int|
                    is_best(probes@, b) && forall|j: int|
                        0 <= j < mirrors@.len() ==> (#[trigger] mirrors@[j]).id@
                            != probes@[b].mirror_id@
            },
        },
{
    match best_probe(probes) {
        Some(b) => {
            let mut i: usize = 0;
            while i < mirrors.len()
                invariant
                    i <= mirrors.len(),
                    b < probes@.len(),
                    is_best(probes@, b as int),
                    forall|j: int| 0 <= j < i ==> (#[trigger] mirrors@[j]).id@ != probes@[b as int].mirror_id@,
                decreases mirrors.len() - i,
            {
                if same_text(mirrors[i].id.as_str(), probes[b].mirror_id.as_str()) {
                    let mut list = mirrors;
                    let chosen = list.remove(i);
                    assert(has_id_at(mirrors@, probes@[b as int].mirror_id@, i as int));
                    assert(chosen == mirrors@[i as int]);
                    return Ok(chosen);
                }
                i += 1;
            }
            assert(probes@[b as int].success);
            Err("No matching mirror found".to_string())
        },
        None => Err("All mirrors failed".to_string()),
    }
}

/// The address of a model hub: that of the mirror where `hf-mirror` is
/// chosen, else the hub's own.
pub fn hf_base_url(mirror_id: &str) -> (r: String)
    ensures
        r@ == (if mirror_id@ == "hf-mirror"@ {
            "https://hf-mirror.com"@
        } else {
            "https://huggingface.co"@
        }),
{
    if same_text(mirror_id, "hf-mirror") {
        "https://hf-mirror.com".to_string()
    } else {
        "https://huggingface.co".to_string()
    }
}

} // verus!
