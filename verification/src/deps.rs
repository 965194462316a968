//! Dependencies between services and the decision to start a service.

use vstd::prelude::*;
use crate::service::{Service, ServiceState};
use crate::syscalls::TaskId;

verus! {

/// What a service needs before it may be started.
#[derive(Debug, Clone, Copy)]
pub enum Dependency {
    /// Another service, by name, must be running.
    Requires(&'static str),
    /// Another service must be stopped (rarely used; not enforced yet).
    Conflicts(&'static str),
    /// A resource such as the network or a file system must be ready
    /// (not enforced yet).
    ResourceReady(&'static str),
}

/// A service definition together with its dependencies.
#[derive(Debug, Clone, Copy)]
pub struct DependencyService {
    pub service: Service,
    pub dependencies: &'static [Dependency],
}

/// `k` is the position of the first service in `all` whose name is `name`.
pub open spec fn is_first_named(all: Seq<DependencyService>, k: int, name: Seq<char>) -> bool {
    &&& 0 <= k < all.len()
    &&& all[k].service.name@ == name
    &&& forall|m: int| 0 <= m < k ==> all[m].service.name@ != name
}

/// No service in `all` is named `name`.
pub open spec fn none_named(all: Seq<DependencyService>, name: Seq<char>) -> bool {
    forall|m: int| 0 <= m < all.len() ==> all[m].service.name@ != name
}

/// The requirement on the service named `name` is met: the first service of
/// that name in `all` exists and is running.
pub open spec fn requirement_met(all: Seq<DependencyService>, name: Seq<char>) -> bool {
    exists|k: int| is_first_named(all, k, name) && all[k].service.state.is_running()
}

/// The dependency `dep` holds among `all`. Only `Requires` is enforced.
pub open spec fn dependency_met(dep: Dependency, all: Seq<DependencyService>) -> bool {
    match dep {
        Dependency::Requires(name) => requirement_met(all, name@),
        _ => true,
    }
}

/// Every dependency of `dep_service` holds among `all`.
pub open spec fn dependencies_met(dep_service: DependencyService, all: Seq<DependencyService>) -> bool {
    forall|i: int|
        0 <= i < dep_service.dependencies@.len() ==> #[trigger] dependency_met(
            dep_service.dependencies@[i],
            all,
        )
}

/// Two lists of services agree on every name and on which services run.
pub open spec fn same_names_and_running(a: Seq<DependencyService>, b: Seq<DependencyService>) -> bool {
    &&& a.len() == b.len()
    &&& forall|k: int|
        #![trigger a[k]]
        #![trigger b[k]]
        0 <= k < a.len() ==> {
            &&& a[k].service.name@ == b[k].service.name@
            &&& a[k].service.state.is_running() == b[k].service.state.is_running()
        }
}

/// Whether a service's dependencies hold depends only on the names of the
/// services and on which of them run.
pub proof fn lemma_dependencies_met_depend_on_running(
    dep_service: DependencyService,
    a: Seq<DependencyService>,
    b: Seq<DependencyService>,
)
    requires
        same_names_and_running(a, b),
    ensures
        dependencies_met(dep_service, a) == dependencies_met(dep_service, b),
{
    assert forall|i: int| 0 <= i < dep_service.dependencies@.len() implies #[trigger] dependency_met(
        dep_service.dependencies@[i],
        a,
    ) == dependency_met(dep_service.dependencies@[i], b) by {
        match dep_service.dependencies@[i] {
            Dependency::Requires(name) => {
                if requirement_met(a, name@) {
                    let k = choose|k: int| is_first_named(a, k, name@) && a[k].service.state.is_running();
                    assert forall|m: int| 0 <= m < k implies b[m].service.name@ != name@ by {
                        assert(a[m].service.name@ != name@);
                    }
                    assert(is_first_named(b, k, name@));
                }
                if requirement_met(b, name@) {
                    let k = choose|k: int| is_first_named(b, k, name@) && b[k].service.state.is_running();
                    assert forall|m: int| 0 <= m < k implies a[m].service.name@ != name@ by {
                        assert(b[m].service.name@ != name@);
                    }
                    assert(is_first_named(a, k, name@));
                }
            },
            _ => {},
        }
    }
    if dependencies_met(dep_service, a) {
        assert forall|i: int| 0 <= i < dep_service.dependencies@.len() implies #[trigger] dependency_met(
            dep_service.dependencies@[i],
            b,
        ) by {
            assert(dependency_met(dep_service.dependencies@[i], a));
        }
    }
    if dependencies_met(dep_service, b) {
        assert forall|i: int| 0 <= i < dep_service.dependencies@.len() implies #[trigger] dependency_met(
            dep_service.dependencies@[i],
            a,
        ) by {
            assert(dependency_met(dep_service.dependencies@[i], b));
        }
    }
}

/// A name counts as unlisted only when no service has it.
pub proof fn lemma_none_named(all: Seq<DependencyService>, j: int)
    requires
        0 <= j < all.len(),
    ensures
        !none_named(all, all[j].service.name@),
{
}

/// A requirement on a service that is not listed is never met.
pub proof fn lemma_unknown_requirement_unmet(
    dep_service: DependencyService,
    all: Seq<DependencyService>,
    i: int,
    name: &'static str,
)
    requires
        0 <= i < dep_service.dependencies@.len(),
        dep_service.dependencies@[i] == Dependency::Requires(name),
        none_named(all, name@),
    ensures
        !dependencies_met(dep_service, all),
{
    assert(!dependency_met(dep_service.dependencies@[i], all));
}

/// A requirement on `name` is met exactly when the first listed service of
/// that name runs, whatever the later services of that name do.
pub proof fn lemma_requirement_decided_by_first(all: Seq<DependencyService>, k: int, name: Seq<char>)
    requires
        0 <= k < all.len(),
        all[k].service.name@ == name,
        forall|m: int| 0 <= m < k ==> all[m].service.name@ != name,
    ensures
        requirement_met(all, name) <==> all[k].service.state is Running,
{
    if requirement_met(all, name) {
        let k2 = choose|k2: int| is_first_named(all, k2, name) && all[k2].service.state.is_running();
        assert(k2 == k) by {
            if k2 < k {
                assert(all[k2].service.name@ != name);
            } else if k2 > k {
                assert(all[k].service.name@ != name);
            }
        }
    }
    if all[k].service.state is Running {
        assert(is_first_named(all, k, name));
    }
}

/// One unmet requirement holds a service back.
pub proof fn lemma_unmet_requirement_blocks(
    dep_service: DependencyService,
    all: Seq<DependencyService>,
    i: int,
    name: &'static str,
)
    requires
        0 <= i < dep_service.dependencies@.len(),
        dep_service.dependencies@[i] == Dependency::Requires(name),
        !requirement_met(all, name@),
    ensures
        !dependencies_met(dep_service, all),
{
    assert(!dependency_met(dep_service.dependencies@[i], all));
}

/// A service whose every requirement is met has its dependencies met.
pub proof fn lemma_all_requirements_met(dep_service: DependencyService, all: Seq<DependencyService>)
    requires
        forall|i: int, name: &'static str|
            0 <= i < dep_service.dependencies@.len() && dep_service.dependencies@[i]
                == Dependency::Requires(name) ==> requirement_met(all, name@),
    ensures
        dependencies_met(dep_service, all),
{
    assert forall|i: int| 0 <= i < dep_service.dependencies@.len() implies #[trigger] dependency_met(
        dep_service.dependencies@[i],
        all,
    ) by {
        match dep_service.dependencies@[i] {
            Dependency::Requires(name) => {
                assert(dep_service.dependencies@[i] == Dependency::Requires(name));
            },
            _ => {},
        }
    }
}

/// Moving a service to another state changes nothing but its state.
pub proof fn lemma_with_state(dep_service: DependencyService, state: ServiceState)
    ensures
        with_state(dep_service, state).service.state == state,
        with_state(dep_service, state).service.name == dep_service.service.name,
        with_state(dep_service, state).service.path == dep_service.service.path,
        with_state(dep_service, state).service.args == dep_service.service.args,
        with_state(dep_service, state).service.restart_policy == dep_service.service.restart_policy,
        with_state(dep_service, state).service.restart_count == dep_service.service.restart_count,
        with_state(dep_service, state).service.next_start_time == dep_service.service.next_start_time,
        with_state(dep_service, state).dependencies == dep_service.dependencies,
{
}

/// Only `Requires` dependencies can hold a service back: a service without
/// any has its dependencies met whatever the other services do.
pub proof fn lemma_only_requirements_block(dep_service: DependencyService, all: Seq<DependencyService>)
    requires
        forall|i: int|
            0 <= i < dep_service.dependencies@.len() ==> !(dep_service.dependencies@[i] is Requires),
    ensures
        dependencies_met(dep_service, all),
{
    assert forall|i: int| 0 <= i < dep_service.dependencies@.len() implies #[trigger] dependency_met(
        dep_service.dependencies@[i],
        all,
    ) by {
        assert(!(dep_service.dependencies@[i] is Requires));
    }
}

/// Whether two strings hold the same characters.
fn same_text(a: &str, b: &str) -> (eq: bool)
    ensures
        eq == (a@ == b@),
{
    let n = a.unicode_len();
    let m = b.unicode_len();
    if n != m {
        return false;
    }
    let mut i: usize = 0;
    while i < n
        invariant
            n == a@.len(),
            m == b@.len(),
            n == m,
            i <= n,
            forall|j: int| 0 <= j < i ==> a@[j] == b@[j],
        decreases n - i,
    {
        if a.get_char(i) != b.get_char(i) {
            return false;
        }
        i = i + 1;
    }
    assert(a@ =~= b@);
    true
}

/// Position of the first service named `name` in `all`, if any.
pub fn find_service(all: &[DependencyService], name: &str) -> (found: Option<usize>)
    ensures
        match found {
            Some(k) => is_first_named(all@, k as int, name@),
            None => none_named(all@, name@),
        },
{
    let mut k: usize = 0;
    while k < all.len()
        invariant
            k <= all@.len(),
            forall|m: int| 0 <= m < k ==> all@[m].service.name@ != name@,
        decreases all@.len() - k,
    {
        if same_text(all[k].service.name, name) {
            return Some(k);
        }
        k = k + 1;
    }
    None
}

/// Checks whether the dependencies of `dep_service` are met among
/// `all_services`: every required service must be listed and its first
/// entry must be running. A requirement on a service that is not listed is
/// a configuration error and counts as unmet.
pub fn check_dependencies(dep_service: &DependencyService, all_services: &[DependencyService]) -> (met: bool)
    ensures
        met == dependencies_met(*dep_service, all_services@),
{
    let deps = dep_service.dependencies;
    let mut i: usize = 0;
    while i < deps.len()
        invariant
            deps@ == dep_service.dependencies@,
            i <= deps@.len(),
            forall|j: int| 0 <= j < i ==> #[trigger] dependency_met(deps@[j], all_services@),
        decreases deps@.len() - i,
    {
        match deps[i] {
            Dependency::Requires(required_name) => {
                match find_service(all_services, required_name) {
                    Some(k) => {
                        if !matches!(all_services[k].service.state, ServiceState::Running(_)) {
                            assert(!dependency_met(deps@[i as int], all_services@));
                            return false;
                        }
                    },
                    None => {
                        assert(!dependency_met(deps@[i as int], all_services@));
                        return false;
                    },
                }
            },
            _ => {},
        }
        i = i + 1;
    }
    true
}

/// `dep_service` with its service moved to `state`.
pub open spec fn with_state(dep_service: DependencyService, state: ServiceState) -> DependencyService {
    DependencyService { service: Service { state, ..dep_service.service }, ..dep_service }
}

/// First half of starting a stopped service in dependency order. A service
/// that is not stopped is left as it is. A stopped service whose
/// dependencies are met is marked as starting, and `true` asks the caller
/// to spawn its task and report the outcome with [`finish_start`]; one
/// whose dependencies are not met is marked as waiting for a later round.
pub fn try_start_service(dep_service: &mut DependencyService, all_services: &[DependencyService]) -> (spawn: bool)
    ensures
        spawn == (old(dep_service).service.state is Stopped && dependencies_met(
            *old(dep_service),
            all_services@,
        )),
        *final(dep_service) == if !(old(dep_service).service.state is Stopped) {
            *old(dep_service)
        } else if spawn {
            with_state(*old(dep_service), ServiceState::Starting)
        } else {
            with_state(*old(dep_service), ServiceState::Waiting)
        },
{
    if matches!(dep_service.service.state, ServiceState::Stopped) {
        if check_dependencies(dep_service, all_services) {
            dep_service.service.state = ServiceState::Starting;
            true
        } else {
            dep_service.service.state = ServiceState::Waiting;
            false
        }
    } else {
        false
    }
}

/// Second half of starting a service: records the kernel's answer to the
/// spawn request, running under the new task or failed.
pub fn finish_start(dep_service: &mut DependencyService, result: Result<TaskId, u64>)
    ensures
        *final(dep_service) == with_state(*old(dep_service), ServiceState::spec_after_spawn(result)),
{
    dep_service.service.state = ServiceState::after_spawn(result);
}


/// A service marked as starting whose spawn then succeeded as `task_id`
/// runs under that task and is otherwise unchanged.
pub proof fn lemma_start_then_spawn(dep_service: DependencyService, task_id: TaskId)
    ensures
        with_state(
            with_state(dep_service, ServiceState::Starting),
            ServiceState::spec_after_spawn(Ok(task_id)),
        ) == with_state(dep_service, ServiceState::Running(task_id)),
{
}

} // verus!
