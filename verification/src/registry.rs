//! The fixed registry of shared Dimension libraries. It is the single source
//! of truth for each library's name, published version and conventional
//! location under a dimension-node workspace root; both generated manifests
//! draw their dependency declarations from it, so they can never disagree on
//! a shared version.

use vstd::prelude::*;

verus! {

use crate::dependency::{Dependency, DependencyModel};

/// The logical role a registry entry plays, so callers never hard-code
/// indices.
pub enum DependencyRole {
    /// The contract-interface library.
    ContractInterface,
    /// The types library.
    Types,
    /// The execution-engine library.
    ExecutionEngine,
    /// The engine-test-support library, needed only by the tests package.
    TestSupport,
}

pub open spec fn contract_dependency_model() -> DependencyModel {
    DependencyModel {
        name: "dimension-contract"@,
        version: "1.4.3"@,
        relative_path: "smart_contracts/contract"@,
    }
}

pub open spec fn types_dependency_model() -> DependencyModel {
    DependencyModel {
        name: "dimension-types"@,
        version: "1.4.6"@,
        relative_path: "types"@,
    }
}

pub open spec fn execution_engine_dependency_model() -> DependencyModel {
    DependencyModel {
        name: "dimension-execution-engine"@,
        version: "1.4.4"@,
        relative_path: "execution_engine"@,
    }
}

pub open spec fn test_support_dependency_model() -> DependencyModel {
    DependencyModel {
        name: "dimension-engine-test-support"@,
        version: "2.0.3"@,
        relative_path: "execution_engine_testing/test_support"@,
    }
}

/// The registry's entries, in registry order: the contract-interface library
/// first, then types, then the execution engine, and last the test-support
/// library that only the tests package declares.
pub open spec fn registry_model() -> Seq<DependencyModel> {
    seq![
        contract_dependency_model(),
        types_dependency_model(),
        execution_engine_dependency_model(),
        test_support_dependency_model(),
    ]
}

/// The dependencies the contract package's manifest declares: the first three
/// registry entries, in registry order.
pub open spec fn contract_package_deps_model() -> Seq<DependencyModel> {
    registry_model().take(3)
}

/// The dependencies the tests package's manifest declares: all four registry
/// entries, in registry order.
pub open spec fn tests_package_deps_model() -> Seq<DependencyModel> {
    registry_model()
}

pub open spec fn role_index(role: DependencyRole) -> int {
    match role {
        DependencyRole::ContractInterface => 0,
        DependencyRole::Types => 1,
        DependencyRole::ExecutionEngine => 2,
        DependencyRole::TestSupport => 3,
    }
}

/// No two entries share a name.
pub open spec fn unique_names(deps: Seq<DependencyModel>) -> bool {
    forall|i: int, j: int|
        0 <= i < deps.len() && 0 <= j < deps.len() && i != j ==> (#[trigger] deps[i]).name != (
        #[trigger] deps[j]).name
}

/// Every registry entry is well formed, and the four names are pairwise
/// distinct.
pub proof fn lemma_registry_model_well_formed()
    ensures
        forall|i: int|
            0 <= i < registry_model().len() ==> (#[trigger] registry_model()[i]).well_formed(),
        unique_names(registry_model()),
{
    reveal_strlit("dimension-contract");
    reveal_strlit("dimension-types");
    reveal_strlit("dimension-execution-engine");
    reveal_strlit("dimension-engine-test-support");
    reveal_strlit("1.4.3");
    reveal_strlit("1.4.6");
    reveal_strlit("1.4.4");
    reveal_strlit("2.0.3");
    reveal_strlit("smart_contracts/contract");
    reveal_strlit("types");
    reveal_strlit("execution_engine");
    reveal_strlit("execution_engine_testing/test_support");
    assert(contract_dependency_model().well_formed());
    assert(types_dependency_model().well_formed());
    assert(execution_engine_dependency_model().well_formed());
    assert(test_support_dependency_model().well_formed());
    assert(contract_dependency_model().name.len() == 18);
    assert(types_dependency_model().name.len() == 15);
    assert(execution_engine_dependency_model().name.len() == 26);
    assert(test_support_dependency_model().name.len() == 29);
}

/// Cross-manifest consistency: both packages' dependency lists are drawn
/// from the one registry, whose names are unique, so a dependency name
/// occurring in both manifests carries the same version string in both.
pub proof fn lemma_cross_manifest_consistency()
    ensures
        forall|i: int, j: int|
            0 <= i < contract_package_deps_model().len() && 0 <= j
                < tests_package_deps_model().len() && (#[trigger] contract_package_deps_model()[i]).name
                == (#[trigger] tests_package_deps_model()[j]).name
                ==> contract_package_deps_model()[i].version
                == tests_package_deps_model()[j].version,
{
    lemma_registry_model_well_formed();
    assert forall|i: int, j: int|
        0 <= i < contract_package_deps_model().len() && 0 <= j < tests_package_deps_model().len()
            && (#[trigger] contract_package_deps_model()[i]).name
            == (#[trigger] tests_package_deps_model()[j]).name implies contract_package_deps_model()[i].version
        == tests_package_deps_model()[j].version by {
        assert(contract_package_deps_model()[i] == registry_model()[i]);
        assert(tests_package_deps_model()[j] == registry_model()[j]);
        assert(i == j);
    }
}

/// The fixed set of shared-library descriptors, created once per run and
/// passed explicitly to whatever composes a manifest.
pub struct DependencyRegistry {
    deps: Vec<Dependency>,
}

impl View for DependencyRegistry {
    type V = Seq<DependencyModel>;

    closed spec fn view(&self) -> Seq<DependencyModel> {
        self.deps.deep_view()
    }
}

impl DependencyRegistry {
    #[verifier::type_invariant]
    spec fn type_inv(self) -> bool {
        self.deps.deep_view() == registry_model()
    }

    pub fn new() -> (r: DependencyRegistry)
        ensures
            r@ == registry_model(),
    {
        proof {
            lemma_registry_model_well_formed();
        }
        let mut deps: Vec<Dependency> = Vec::new();
        deps.push(Dependency::new("dimension-contract", "1.4.3", "smart_contracts/contract"));
        deps.push(Dependency::new("dimension-types", "1.4.6", "types"));
        deps.push(Dependency::new("dimension-execution-engine", "1.4.4", "execution_engine"));
        deps.push(
            Dependency::new(
                "dimension-engine-test-support",
                "2.0.3",
                "execution_engine_testing/test_support",
            ),
        );
        proof {
            assert(deps.deep_view() =~= registry_model());
        }
        DependencyRegistry { deps }
    }

    /// Looks an entry up by its logical role. The registry is fixed, so the
    /// lookup always succeeds.
    pub fn get(&self, role: DependencyRole) -> (d: &Dependency)
        ensures
            d@ == registry_model()[role_index(role)],
    {
        proof {
            use_type_invariant(self);
            assert(self.deps.deep_view().len() == 4);
            assert(self.deps@.len() == 4);
        }
        match role {
            DependencyRole::ContractInterface => &self.deps[0],
            DependencyRole::Types => &self.deps[1],
            DependencyRole::ExecutionEngine => &self.deps[2],
            DependencyRole::TestSupport => &self.deps[3],
        }
    }

    /// The subset of the registry the contract package's manifest needs, in
    /// registry order.
    pub fn contract_package_deps(&self) -> (v: Vec<Dependency>)
        ensures
            v.deep_view() == contract_package_deps_model(),
    {
        proof {
            use_type_invariant(self);
            assert(self.deps.deep_view().len() == 4);
            assert(self.deps@.len() == 4);
        }
        let mut v: Vec<Dependency> = Vec::new();
        v.push(self.deps[0].clone());
        v.push(self.deps[1].clone());
        v.push(self.deps[2].clone());
        proof {
            assert(v.deep_view() =~= contract_package_deps_model());
        }
        v
    }

    /// The subset of the registry the tests package's manifest needs: all of
    /// it, in registry order.
    pub fn tests_package_deps(&self) -> (v: Vec<Dependency>)
        ensures
            v.deep_view() == tests_package_deps_model(),
    {
        proof {
            use_type_invariant(self);
            assert(self.deps.deep_view().len() == 4);
            assert(self.deps@.len() == 4);
        }
        let mut v: Vec<Dependency> = Vec::new();
        v.push(self.deps[0].clone());
        v.push(self.deps[1].clone());
        v.push(self.deps[2].clone());
        v.push(self.deps[3].clone());
        proof {
            assert(v.deep_view() =~= tests_package_deps_model());
        }
        v
    }
}

} // verus!
