//! The scaffold orchestrator's decisions: the resolved arguments of a run,
//! the re-check that the destination does not already exist, and the plan of
//! files — both package manifests and the toolchain pin — that a run writes
//! under the destination. Writing them is the caller's job; everything here
//! is pure.

use vstd::prelude::*;

verus! {

use vstd::string::StringExecFns;
use crate::dependency::DependencyModel;
use crate::manifest::{
    base_manifest_model, compose, compose_manifest_model, lemma_compose_empty_block,
    PackageIdentity, PackageIdentityModel,
};
use crate::overrides::{
    lemma_no_override_renders_nothing, lemma_override_entries_contain_each, override_entries_model,
    override_entry_model, patch_header, patch_section_model, render_patch_section, selection_model,
    DimensionOverrides, OverrideModel,
};
use crate::text::{contains_seq, lemma_contains_concat_right};
use crate::registry::{
    contract_package_deps_model, tests_package_deps_model, DependencyRegistry,
};
use crate::rust_toolchain;
use crate::rust_toolchain::{toolchain_contents_model, toolchain_file_name};

/// Mathematical model of a [`GeneratedFile`].
pub ghost struct GeneratedFileModel {
    pub relative_path: Seq<char>,
    pub contents: Seq<char>,
}

/// One file a run writes: its path relative to the destination directory and
/// its full contents.
#[derive(Debug)]
pub struct GeneratedFile {
    pub relative_path: String,
    pub contents: String,
}

impl View for GeneratedFile {
    type V = GeneratedFileModel;

    open spec fn view(&self) -> GeneratedFileModel {
        GeneratedFileModel { relative_path: self.relative_path@, contents: self.contents@ }
    }
}

impl DeepView for GeneratedFile {
    type V = GeneratedFileModel;

    open spec fn deep_view(&self) -> GeneratedFileModel {
        self.view()
    }
}

/// Mathematical model of [`Args`].
pub ghost struct ArgsModel {
    pub root_path: Seq<char>,
    pub overrides: Option<OverrideModel>,
}

/// The validated inputs of one run: the destination path and the resolved
/// override selection. Computed once, immutable thereafter.
pub struct Args {
    root_path: String,
    dimension_overrides: Option<DimensionOverrides>,
}

impl View for Args {
    type V = ArgsModel;

    closed spec fn view(&self) -> ArgsModel {
        ArgsModel {
            root_path: self.root_path@,
            overrides: selection_model(&self.dimension_overrides),
        }
    }
}

impl Args {
    pub fn new(root_path: String, dimension_overrides: Option<DimensionOverrides>) -> (a: Args)
        ensures
            a@ == (ArgsModel {
                root_path: root_path@,
                overrides: selection_model(&dimension_overrides),
            }),
    {
        Args { root_path, dimension_overrides }
    }

    pub fn root_path(&self) -> (r: &str)
        ensures
            r@ == self@.root_path,
    {
        self.root_path.as_str()
    }

    pub fn dimension_overrides(&self) -> (r: Option<&DimensionOverrides>)
        ensures
            r is Some <==> self@.overrides is Some,
            r matches Some(ov) ==> self@.overrides == Some(ov@),
    {
        match &self.dimension_overrides {
            Some(ov) => Some(ov),
            None => None,
        }
    }
}

/// The single failure a run can report before touching the filesystem.
#[derive(Debug, PartialEq, Eq, Structural)]
pub enum ScaffoldError {
    /// The destination path already exists; nothing is written.
    DestinationExists,
}

/// Everything a successful run writes: the destination directory to create
/// and the files to put under it.
#[derive(Debug)]
pub struct ScaffoldPlan {
    pub root_path: String,
    pub files: Vec<GeneratedFile>,
}

pub open spec fn contract_identity_model() -> PackageIdentityModel {
    PackageIdentityModel { name: "contract"@, version: "0.1.0"@ }
}

pub open spec fn tests_identity_model() -> PackageIdentityModel {
    PackageIdentityModel { name: "tests"@, version: "0.1.0"@ }
}

pub open spec fn contract_manifest_path() -> Seq<char> {
    "contract/Cargo.toml"@
}

pub open spec fn tests_manifest_path() -> Seq<char> {
    "tests/Cargo.toml"@
}

/// The contract package's manifest text for a given selection: its identity,
/// its three dependency declarations, and the patch section rendered over
/// those same dependencies.
pub open spec fn contract_manifest_model(sel: Option<OverrideModel>) -> Seq<char> {
    compose_manifest_model(
        contract_identity_model(),
        contract_package_deps_model(),
        patch_section_model(sel, contract_package_deps_model()),
    )
}

/// The tests package's manifest text for a given selection: its identity,
/// all four dependency declarations, and the patch section rendered over
/// those same dependencies.
pub open spec fn tests_manifest_model(sel: Option<OverrideModel>) -> Seq<char> {
    compose_manifest_model(
        tests_identity_model(),
        tests_package_deps_model(),
        patch_section_model(sel, tests_package_deps_model()),
    )
}

/// The files of one run, in the order they are written: the contract
/// manifest, the tests manifest, the toolchain pin.
pub open spec fn scaffold_files_model(sel: Option<OverrideModel>) -> Seq<GeneratedFileModel> {
    seq![
        GeneratedFileModel {
            relative_path: contract_manifest_path(),
            contents: contract_manifest_model(sel),
        },
        GeneratedFileModel {
            relative_path: tests_manifest_path(),
            contents: tests_manifest_model(sel),
        },
        GeneratedFileModel {
            relative_path: toolchain_file_name(),
            contents: toolchain_contents_model(),
        },
    ]
}

/// With no override selected, neither generated manifest holds an override
/// section: each is exactly its base manifest, identity and dependency
/// declarations and nothing more.
pub proof fn lemma_no_override_scaffold()
    ensures
        contract_manifest_model(None) == base_manifest_model(
            contract_identity_model(),
            contract_package_deps_model(),
        ),
        tests_manifest_model(None) == base_manifest_model(
            tests_identity_model(),
            tests_package_deps_model(),
        ),
{
    lemma_no_override_renders_nothing(contract_package_deps_model());
    lemma_compose_empty_block(contract_identity_model(), contract_package_deps_model());
    lemma_no_override_renders_nothing(tests_package_deps_model());
    lemma_compose_empty_block(tests_identity_model(), tests_package_deps_model());
}

/// A manifest composed with an active override carries, for every dependency
/// it declares, that dependency's override entry in its text.
pub proof fn lemma_manifest_contains_override_entries(
    id: PackageIdentityModel,
    deps: Seq<DependencyModel>,
    ov: OverrideModel,
)
    ensures
        forall|i: int|
            0 <= i < deps.len() ==> contains_seq(
                compose_manifest_model(id, deps, patch_section_model(Some(ov), deps)),
                override_entry_model(ov, #[trigger] deps[i]),
            ),
{
    lemma_override_entries_contain_each(ov, deps);
    assert forall|i: int| 0 <= i < deps.len() implies contains_seq(
        compose_manifest_model(id, deps, patch_section_model(Some(ov), deps)),
        override_entry_model(ov, #[trigger] deps[i]),
    ) by {
        lemma_contains_concat_right(
            patch_header(),
            override_entries_model(ov, deps),
            override_entry_model(ov, deps[i]),
        );
        lemma_contains_concat_right(
            base_manifest_model(id, deps),
            patch_section_model(Some(ov), deps),
            override_entry_model(ov, deps[i]),
        );
    }
}

/// With an active override, both generated manifests carry one override
/// entry for each dependency they declare.
pub proof fn lemma_override_entries_in_generated_manifests(ov: OverrideModel)
    ensures
        forall|i: int|
            0 <= i < contract_package_deps_model().len() ==> contains_seq(
                contract_manifest_model(Some(ov)),
                override_entry_model(ov, #[trigger] contract_package_deps_model()[i]),
            ),
        forall|i: int|
            0 <= i < tests_package_deps_model().len() ==> contains_seq(
                tests_manifest_model(Some(ov)),
                override_entry_model(ov, #[trigger] tests_package_deps_model()[i]),
            ),
{
    lemma_manifest_contains_override_entries(
        contract_identity_model(),
        contract_package_deps_model(),
        ov,
    );
    lemma_manifest_contains_override_entries(tests_identity_model(), tests_package_deps_model(), ov);
}

/// Decides one whole run. An existing destination is refused before any file
/// is planned; otherwise the plan holds both composed manifests and the
/// toolchain pin, ready to be written in order under the destination.
pub fn plan_scaffold(args: &Args, registry: &DependencyRegistry, destination_exists: bool) -> (r:
    Result<ScaffoldPlan, ScaffoldError>)
    ensures
        destination_exists <==> r is Err,
        r matches Err(e) ==> e == ScaffoldError::DestinationExists,
        r matches Ok(plan) ==> plan.root_path@ == args@.root_path && plan.files.deep_view()
            == scaffold_files_model(args@.overrides),
{
    if destination_exists {
        return Err(ScaffoldError::DestinationExists);
    }
    let contract_deps = registry.contract_package_deps();
    let tests_deps = registry.tests_package_deps();
    let contract_block = render_patch_section(&args.dimension_overrides, &contract_deps);
    let tests_block = render_patch_section(&args.dimension_overrides, &tests_deps);
    let contract_identity = PackageIdentity::new("contract", "0.1.0");
    let tests_identity = PackageIdentity::new("tests", "0.1.0");
    let contract_manifest = compose(&contract_identity, &contract_deps, contract_block.as_str());
    let tests_manifest = compose(&tests_identity, &tests_deps, tests_block.as_str());
    let mut files: Vec<GeneratedFile> = Vec::new();
    files.push(
        GeneratedFile {
            relative_path: String::from_str("contract/Cargo.toml"),
            contents: contract_manifest,
        },
    );
    files.push(
        GeneratedFile {
            relative_path: String::from_str("tests/Cargo.toml"),
            contents: tests_manifest,
        },
    );
    files.push(rust_toolchain::create());
    proof {
        assert(files.deep_view() =~= scaffold_files_model(args@.overrides));
    }
    Ok(ScaffoldPlan { root_path: args.root_path.clone(), files })
}

} // verus!
