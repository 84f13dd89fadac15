//! Choosing the configurations on which shaders are run.
pub mod client;
pub mod types;

use crate::harness::types::{Adapter, BackendType, Config, ConfigId, Implementation};
use vstd::prelude::*;

verus! {

/// The answer of the harness server to a request for its configurations.
pub struct ListResponse {
    pub configs: Vec<Config>,
}

/// A message of the harness server about a run.
pub enum RunMessage {
    /// No configurations were requested; these defaults are used.
    UsingDefaultConfigs(Vec<ConfigId>),
    ExecStart(ConfigId),
    /// The buffers that the execution left, and the counters of the control flow it took.
    ExecSuccess(Vec<Vec<u8>>, Option<Vec<u32>>),
    ExecFailure(Vec<u8>),
    ExecTimeout,
    End(Result<(), RunError>),
}

/// Why a run failed as a whole.
#[derive(Clone, Copy, Debug, PartialEq, Eq, Structural)]
pub enum RunError {
    NoDefaultConfigs,
    InternalServerError,
}

/// What to run: a shader (`-` for the standard input), its input data, and the
/// configurations to run it on (the defaults where there are none).
pub struct RunOptions {
    pub shader: String,
    pub input_data: Option<String>,
    pub configs: Vec<ConfigId>,
}

/// The answer of the harness to a request to execute a shader.
pub struct Response {
    pub exit_code: i32,
    pub output: String,
}

/// The configuration of an implementation on an adapter.
pub open spec fn config_of(imp: Implementation, a: Adapter) -> Config {
    Config {
        id: ConfigId { implementation: imp, backend: a.backend, device_id: a.device_id },
        adapter_name: a.name,
    }
}

/// Appends the configurations of an implementation on each of its adapters.
fn push_configs(configurations: &mut Vec<Config>, imp: Implementation, adapters: Vec<Adapter>)
    ensures
        final(configurations)@.len() == old(configurations)@.len() + adapters@.len(),
        forall|i: int| 0 <= i < old(configurations)@.len() ==> #[trigger] final(configurations)@[i] == old(configurations)@[i],
        forall|i: int|
            0 <= i < adapters@.len() ==> #[trigger] final(configurations)@[old(configurations)@.len() + i]
                == config_of(imp, adapters@[i]),
{
    let ghost orig = adapters@;
    let ghost start = configurations@;
    let total = adapters.len();
    let mut rest = adapters;
    let mut i: usize = 0;
    while rest.len() > 0
        invariant
            total == orig.len(),
            i <= orig.len(),
            rest@ == orig.subrange(i as int, orig.len() as int),
            configurations@.len() == start.len() + i,
            forall|j: int| 0 <= j < start.len() ==> #[trigger] configurations@[j] == start[j],
            forall|j: int| 0 <= j < i ==> #[trigger] configurations@[start.len() + j] == config_of(imp, orig[j]),
        decreases rest.len(),
    {
        let a = rest.remove(0);
        assert(a == orig[i as int]);
        configurations.push(Config::new(imp, a));
        i = i + 1;
    }
}

/// The configurations available: those of wgpu on its adapters, then those of Dawn on
/// its adapters.
pub fn query_configs(wgpu_adapters: Vec<Adapter>, dawn_adapters: Vec<Adapter>) -> (r: Vec<Config>)
    ensures
        r@.len() == wgpu_adapters@.len() + dawn_adapters@.len(),
        forall|i: int|
            0 <= i < wgpu_adapters@.len() ==> #[trigger] r@[i] == config_of(Implementation::Wgpu, wgpu_adapters@[i]),
        forall|i: int|
            0 <= i < dawn_adapters@.len() ==> #[trigger] r@[wgpu_adapters@.len() + i] == config_of(
                Implementation::Dawn,
                dawn_adapters@[i],
            ),
{
    let ghost wgpu = wgpu_adapters@;
    let mut configurations: Vec<Config> = Vec::new();
    push_configs(&mut configurations, Implementation::Wgpu, wgpu_adapters);
    assert forall|i: int| 0 <= i < wgpu.len() implies #[trigger] configurations@[i] == config_of(
        Implementation::Wgpu,
        wgpu[i],
    ) by {
        assert(configurations@[0 + i] == config_of(Implementation::Wgpu, wgpu[i]));
    }
    let ghost first = configurations@;
    push_configs(&mut configurations, Implementation::Dawn, dawn_adapters);
    assert forall|i: int| 0 <= i < wgpu.len() implies #[trigger] configurations@[i] == config_of(
        Implementation::Wgpu,
        wgpu[i],
    ) by {
        assert(configurations@[i] == first[i]);
    }
    configurations
}

/// The implementation and backend pairs for which a default configuration is chosen,
/// in order: Dawn on each backend, then wgpu on each.
pub open spec fn default_targets() -> Seq<(Implementation, BackendType)> {
    seq![
        (Implementation::Dawn, BackendType::Dx12),
        (Implementation::Dawn, BackendType::Metal),
        (Implementation::Dawn, BackendType::Vulkan),
        (Implementation::Wgpu, BackendType::Dx12),
        (Implementation::Wgpu, BackendType::Metal),
        (Implementation::Wgpu, BackendType::Vulkan),
    ]
}

/// The id of the first available configuration of the target, from index `k` on.
pub open spec fn first_match(available: Seq<Config>, t: (Implementation, BackendType), k: int) -> Option<ConfigId>
    decreases available.len() - k,
{
    if k < 0 || k >= available.len() {
        None
    } else if available[k].id.implementation == t.0 && available[k].id.backend == t.1 {
        Some(available[k].id)
    } else {
        first_match(available, t, k + 1)
    }
}

/// The chosen configurations for the targets from index `k` on.
pub open spec fn defaults_from(available: Seq<Config>, k: int) -> Seq<ConfigId>
    decreases default_targets().len() - k,
{
    if k < 0 || k >= default_targets().len() {
        Seq::empty()
    } else {
        match first_match(available, default_targets()[k], 0) {
            Some(id) => seq![id] + defaults_from(available, k + 1),
            None => defaults_from(available, k + 1),
        }
    }
}

fn find_config(available: &Vec<Config>, imp: Implementation, backend: BackendType) -> (r: Option<ConfigId>)
    ensures
        r == first_match(available@, (imp, backend), 0),
{
    let mut i: usize = 0;
    while i < available.len()
        invariant
            i <= available.len(),
            first_match(available@, (imp, backend), 0) == first_match(available@, (imp, backend), i as int),
        decreases available.len() - i,
    {
        if available[i].id.implementation == imp && available[i].id.backend == backend {
            return Some(available[i].id);
        }
        i = i + 1;
    }
    None
}

/// The configurations on which shaders are run by default: for each implementation and
/// backend, in order, the first available configuration of it.
pub fn default_configs(available: &Vec<Config>) -> (r: Vec<ConfigId>)
    ensures
        r@ == defaults_from(available@, 0),
{
    let targets: [(Implementation, BackendType); 6] = [
        (Implementation::Dawn, BackendType::Dx12),
        (Implementation::Dawn, BackendType::Metal),
        (Implementation::Dawn, BackendType::Vulkan),
        (Implementation::Wgpu, BackendType::Dx12),
        (Implementation::Wgpu, BackendType::Metal),
        (Implementation::Wgpu, BackendType::Vulkan),
    ];
    assert(targets@ =~= default_targets());
    let mut configs: Vec<ConfigId> = Vec::new();
    let mut k: usize = 0;
    while k < 6
        invariant
            k <= 6,
            targets@ == default_targets(),
            configs@ + defaults_from(available@, k as int) == defaults_from(available@, 0),
        decreases 6 - k,
    {
        let (imp, backend) = targets[k];
        let found = find_config(available, imp, backend);
        if let Some(id) = found {
            assert(configs@.push(id) + defaults_from(available@, k + 1) =~= configs@ + (seq![id] + defaults_from(
                available@,
                k + 1,
            )));
            configs.push(id);
        }
        k = k + 1;
    }
    assert(configs@ + Seq::<ConfigId>::empty() =~= configs@);
    configs
}

/// The implementation and backend of a configuration.
pub open spec fn pair_of(id: ConfigId) -> (Implementation, BackendType) {
    (id.implementation, id.backend)
}

/// `k` is the first available configuration of implementation and backend `t`.
pub open spec fn first_of_pair(available: Seq<Config>, t: (Implementation, BackendType), k: int) -> bool {
    &&& 0 <= k < available.len()
    &&& pair_of(available[k].id) == t
    &&& forall|k2: int| 0 <= k2 < k ==> pair_of(#[trigger] available[k2].id) != t
}

proof fn lemma_first_match(available: Seq<Config>, t: (Implementation, BackendType), k0: int)
    requires
        0 <= k0 <= available.len(),
        forall|k2: int| 0 <= k2 < k0 ==> pair_of(#[trigger] available[k2].id) != t,
    ensures
        first_match(available, t, k0) matches Some(id) ==> exists|k: int|
            first_of_pair(available, t, k) && #[trigger] available[k].id == id,
        first_match(available, t, k0) is None ==> forall|k: int|
            0 <= k < available.len() ==> pair_of(#[trigger] available[k].id) != t,
    decreases available.len() - k0,
{
    if k0 < available.len() {
        if pair_of(available[k0].id) == t {
            assert(first_of_pair(available, t, k0));
        } else {
            lemma_first_match(available, t, k0 + 1);
        }
    }
}

proof fn lemma_targets_cover(imp: Implementation, backend: BackendType)
    ensures
        exists|j: int| 0 <= j < 6 && #[trigger] default_targets()[j] == (imp, backend),
{
    let t = default_targets();
    match imp {
        Implementation::Dawn => match backend {
            BackendType::Dx12 => assert(t[0] == (imp, backend)),
            BackendType::Metal => assert(t[1] == (imp, backend)),
            BackendType::Vulkan => assert(t[2] == (imp, backend)),
        },
        Implementation::Wgpu => match backend {
            BackendType::Dx12 => assert(t[3] == (imp, backend)),
            BackendType::Metal => assert(t[4] == (imp, backend)),
            BackendType::Vulkan => assert(t[5] == (imp, backend)),
        },
    }
}

proof fn lemma_defaults_from(available: Seq<Config>, k: int)
    requires
        0 <= k <= 6,
    ensures
        forall|x: int|
            0 <= x < defaults_from(available, k).len() ==> exists|j: int|
                k <= j < 6 && first_match(available, default_targets()[j], 0) == Some(
                    #[trigger] defaults_from(available, k)[x],
                ),
        forall|j: int|
            k <= j < 6 ==> (first_match(available, #[trigger] default_targets()[j], 0) matches Some(id)
                ==> defaults_from(available, k).contains(id)),
        forall|a: int, b: int|
            0 <= a < b < defaults_from(available, k).len() ==> pair_of(#[trigger] defaults_from(available, k)[a]) != pair_of(
                #[trigger] defaults_from(available, k)[b],
            ),
    decreases 6 - k,
{
    let t = default_targets();
    if k < 6 {
        lemma_defaults_from(available, k + 1);
        let rest = defaults_from(available, k + 1);
        let ds = defaults_from(available, k);
        assert forall|j: int| 0 <= j < 6 implies (first_match(available, #[trigger] t[j], 0) matches Some(id) ==> pair_of(id)
            == t[j]) by {
            lemma_first_match(available, t[j], 0);
        }
        match first_match(available, t[k], 0) {
            Some(id) => {
                assert(ds == seq![id] + rest);
                assert forall|x: int| 0 <= x < ds.len() implies exists|j: int|
                    k <= j < 6 && first_match(available, t[j], 0) == Some(#[trigger] ds[x]) by {
                    if x > 0 {
                        assert(ds[x] == rest[x - 1]);
                    }
                }
                assert forall|j: int| k <= j < 6 implies (first_match(available, #[trigger] t[j], 0) matches Some(id2)
                    ==> ds.contains(id2)) by {
                    if j == k {
                        assert(ds[0] == id);
                    } else if let Some(id2) = first_match(available, t[j], 0) {
                        let x = choose|x: int| 0 <= x < rest.len() && rest[x] == id2;
                        assert(ds[x + 1] == id2);
                    }
                }
                assert forall|a: int, b: int| 0 <= a < b < ds.len() implies pair_of(#[trigger] ds[a]) != pair_of(
                    #[trigger] ds[b],
                ) by {
                    assert(ds[b] == rest[b - 1]);
                    if a == 0 {
                        let j = choose|j: int| k + 1 <= j < 6 && first_match(available, t[j], 0) == Some(#[trigger] rest[b - 1]);
                        assert(pair_of(ds[b]) == t[j]);
                        assert(pair_of(ds[0]) == t[k]);
                    } else {
                        assert(ds[a] == rest[a - 1]);
                    }
                }
            },
            None => {
                assert(ds == rest);
            },
        }
    }
}

/// Law of `default_configs`: for each implementation and backend, when some available
/// configuration has them, the first such configuration is among the defaults; every
/// default is the first available configuration of its implementation and backend; and
/// no two defaults share an implementation and backend, so none occurs twice.
pub proof fn law_default_configs(available: Seq<Config>, imp: Implementation, backend: BackendType)
    ensures
        forall|k: int|
            #[trigger] first_of_pair(available, (imp, backend), k) ==> defaults_from(available, 0).contains(available[k].id),
        forall|x: int|
            #![trigger defaults_from(available, 0)[x]]
            0 <= x < defaults_from(available, 0).len() ==> exists|k: int|
                first_of_pair(available, pair_of(defaults_from(available, 0)[x]), k) && #[trigger] available[k].id
                    == defaults_from(available, 0)[x],
        forall|a: int, b: int|
            0 <= a < b < defaults_from(available, 0).len() ==> pair_of(#[trigger] defaults_from(available, 0)[a])
                != pair_of(#[trigger] defaults_from(available, 0)[b]),
{
    let t = default_targets();
    let ds = defaults_from(available, 0);
    lemma_defaults_from(available, 0);
    lemma_targets_cover(imp, backend);
    assert forall|k: int| #[trigger] first_of_pair(available, (imp, backend), k) implies ds.contains(available[k].id) by {
        let j = choose|j: int| 0 <= j < 6 && #[trigger] t[j] == (imp, backend);
        lemma_first_match(available, t[j], 0);
        let k1 = choose|k1: int| first_of_pair(available, t[j], k1) && #[trigger] available[k1].id == first_match(available, t[j], 0)->0;
        if k1 < k {
            assert(pair_of(available[k1].id) != (imp, backend));
        } else if k < k1 {
            assert(pair_of(available[k].id) != t[j]);
        }
    }
    assert forall|x: int| #![trigger ds[x]] 0 <= x < ds.len() implies exists|k: int|
        first_of_pair(available, pair_of(ds[x]), k) && #[trigger] available[k].id == ds[x] by {
        let j = choose|j: int| 0 <= j < 6 && first_match(available, t[j], 0) == Some(#[trigger] ds[x]);
        lemma_first_match(available, t[j], 0);
        let k1 = choose|k1: int| first_of_pair(available, t[j], k1) && #[trigger] available[k1].id == ds[x];
        assert(pair_of(ds[x]) == t[j]);
    }
}

} // verus!
