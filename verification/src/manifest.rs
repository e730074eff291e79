//! The manifest composer: deterministic rendering of one package manifest's
//! full text from the package identity, the needed registry dependencies, and
//! an already-rendered override block.

use vstd::prelude::*;

verus! {

use vstd::string::StringExecFns;
use crate::dependency::{Dependency, DependencyModel};
use crate::text::{
    contains_seq, lemma_contains_concat_left, lemma_contains_concat_right, lemma_contains_self,
    lemma_contains_trans,
};

/// Mathematical model of a [`PackageIdentity`].
pub ghost struct PackageIdentityModel {
    pub name: Seq<char>,
    pub version: Seq<char>,
}

/// The identity of one generated package: its name and its own version. The
/// remaining package-level metadata is fixed.
pub struct PackageIdentity {
    name: String,
    version: String,
}

impl View for PackageIdentity {
    type V = PackageIdentityModel;

    closed spec fn view(&self) -> PackageIdentityModel {
        PackageIdentityModel { name: self.name@, version: self.version@ }
    }
}

impl PackageIdentity {
    pub fn new(name: &str, version: &str) -> (id: PackageIdentity)
        ensures
            id@ == (PackageIdentityModel { name: name@, version: version@ }),
    {
        PackageIdentity { name: String::from_str(name), version: String::from_str(version) }
    }

    pub fn name(&self) -> (r: &str)
        ensures
            r@ == self@.name,
    {
        self.name.as_str()
    }

    pub fn version(&self) -> (r: &str)
        ensures
            r@ == self@.version,
    {
        self.version.as_str()
    }
}

/// The identity section of a manifest, with the fixed package-level metadata.
pub open spec fn identity_section_model(id: PackageIdentityModel) -> Seq<char> {
    "[package]\nname = \""@ + id.name + "\"\nversion = \""@ + id.version
        + "\"\nedition = \"2021\"\n\n"@
}

/// One dependency-declaration line, always using the registered name and
/// version of the descriptor itself.
pub open spec fn dependency_line_model(d: DependencyModel) -> Seq<char> {
    d.name + " = \""@ + d.version + "\"\n"@
}

/// The declaration lines of all needed dependencies, in registry order.
pub open spec fn dependency_lines_model(deps: Seq<DependencyModel>) -> Seq<char>
    decreases deps.len(),
{
    if deps.len() == 0 {
        Seq::empty()
    } else {
        dependency_lines_model(deps.drop_last()) + dependency_line_model(deps.last())
    }
}

/// The dependency section: its header and one line per needed dependency.
pub open spec fn dependency_section_model(deps: Seq<DependencyModel>) -> Seq<char> {
    "[dependencies]\n"@ + dependency_lines_model(deps)
}

/// A manifest before any override block: identity section, then dependency
/// section.
pub open spec fn base_manifest_model(
    id: PackageIdentityModel,
    deps: Seq<DependencyModel>,
) -> Seq<char> {
    identity_section_model(id) + dependency_section_model(deps)
}

/// The full manifest text: the base manifest followed verbatim by the
/// override block, which may be empty.
pub open spec fn compose_manifest_model(
    id: PackageIdentityModel,
    deps: Seq<DependencyModel>,
    override_block: Seq<char>,
) -> Seq<char> {
    base_manifest_model(id, deps) + override_block
}

/// Composition is deterministic: two manifests composed from identical
/// inputs are byte-identical.
pub proof fn lemma_compose_deterministic(
    m1: Seq<char>,
    m2: Seq<char>,
    id: PackageIdentityModel,
    deps: Seq<DependencyModel>,
    override_block: Seq<char>,
)
    requires
        m1 == compose_manifest_model(id, deps, override_block),
        m2 == compose_manifest_model(id, deps, override_block),
    ensures
        m1 == m2,
{
}

/// An empty override block adds nothing: the composed manifest is exactly
/// the base manifest.
pub proof fn lemma_compose_empty_block(id: PackageIdentityModel, deps: Seq<DependencyModel>)
    ensures
        compose_manifest_model(id, deps, Seq::empty()) == base_manifest_model(id, deps),
{
    assert(compose_manifest_model(id, deps, Seq::empty()) =~= base_manifest_model(id, deps));
}

/// A dependency-declaration line mentions the dependency's registered name.
pub proof fn lemma_dependency_line_contains_name(d: DependencyModel)
    ensures
        contains_seq(dependency_line_model(d), d.name),
{
    let k: int = 0;
    assert((d.name + " = \""@).subrange(k, k + d.name.len()) =~= d.name);
    lemma_contains_concat_left(d.name + " = \""@, d.version, d.name);
    lemma_contains_concat_left(d.name + " = \""@ + d.version, "\"\n"@, d.name);
}

/// Each needed dependency's declaration line occurs in the rendered lines.
pub proof fn lemma_dependency_lines_contain_each(deps: Seq<DependencyModel>)
    ensures
        forall|i: int|
            0 <= i < deps.len() ==> contains_seq(
                dependency_lines_model(deps),
                dependency_line_model(#[trigger] deps[i]),
            ),
    decreases deps.len(),
{
    if deps.len() > 0 {
        lemma_dependency_lines_contain_each(deps.drop_last());
        assert forall|i: int| 0 <= i < deps.len() implies contains_seq(
            dependency_lines_model(deps),
            dependency_line_model(#[trigger] deps[i]),
        ) by {
            if i < deps.len() - 1 {
                assert(deps.drop_last()[i] == deps[i]);
                lemma_contains_concat_left(
                    dependency_lines_model(deps.drop_last()),
                    dependency_line_model(deps.last()),
                    dependency_line_model(deps[i]),
                );
            } else {
                lemma_contains_self(dependency_line_model(deps.last()));
                lemma_contains_concat_right(
                    dependency_lines_model(deps.drop_last()),
                    dependency_line_model(deps.last()),
                    dependency_line_model(deps.last()),
                );
            }
        }
    }
}

/// A composed manifest's dependency block declares every needed dependency's
/// name.
pub proof fn lemma_manifest_declares_each_name(
    id: PackageIdentityModel,
    deps: Seq<DependencyModel>,
    override_block: Seq<char>,
)
    ensures
        forall|i: int|
            0 <= i < deps.len() ==> contains_seq(
                compose_manifest_model(id, deps, override_block),
                (#[trigger] deps[i]).name,
            ),
{
    lemma_dependency_lines_contain_each(deps);
    assert forall|i: int| 0 <= i < deps.len() implies contains_seq(
        compose_manifest_model(id, deps, override_block),
        (#[trigger] deps[i]).name,
    ) by {
        lemma_dependency_line_contains_name(deps[i]);
        lemma_contains_trans(
            dependency_lines_model(deps),
            dependency_line_model(deps[i]),
            deps[i].name,
        );
        lemma_contains_concat_right("[dependencies]\n"@, dependency_lines_model(deps), deps[i].name);
        lemma_contains_concat_right(
            identity_section_model(id),
            dependency_section_model(deps),
            deps[i].name,
        );
        lemma_contains_concat_left(base_manifest_model(id, deps), override_block, deps[i].name);
    }
}

fn push_dependency_line(out: &mut String, d: &Dependency)
    ensures
        final(out)@ == old(out)@ + dependency_line_model(d@),
{
    out.append(d.name());
    out.append(" = \"");
    out.append(d.version());
    out.append("\"\n");
    proof {
        assert(out@ =~= old(out)@ + dependency_line_model(d@));
    }
}

/// Composes one package manifest. The version written for each dependency is
/// the one registered in its descriptor, never a copy held elsewhere, so two
/// manifests fed from the same registry can never disagree on a shared
/// version.
pub fn compose(identity: &PackageIdentity, deps: &Vec<Dependency>, override_block: &str) -> (m:
    String)
    ensures
        m@ == compose_manifest_model(identity@, deps.deep_view(), override_block@),
{
    let mut out = String::new();
    out.append("[package]\nname = \"");
    out.append(identity.name());
    out.append("\"\nversion = \"");
    out.append(identity.version());
    out.append("\"\nedition = \"2021\"\n\n");
    out.append("[dependencies]\n");
    proof {
        assert(deps.deep_view().take(0) =~= Seq::<DependencyModel>::empty());
        assert(out@ =~= identity_section_model(identity@) + "[dependencies]\n"@
            + dependency_lines_model(deps.deep_view().take(0)));
    }
    let ghost all = deps.deep_view();
    let mut i: usize = 0;
    while i < deps.len()
        invariant
            i <= deps.len(),
            all == deps.deep_view(),
            all.len() == deps@.len(),
            out@ == identity_section_model(identity@) + "[dependencies]\n"@
                + dependency_lines_model(all.take(i as int)),
        decreases deps.len() - i,
    {
        push_dependency_line(&mut out, &deps[i]);
        proof {
            assert(all.take(i + 1).drop_last() =~= all.take(i as int));
            assert(all.take(i + 1).last() == all[i as int]);
            assert(out@ =~= identity_section_model(identity@) + "[dependencies]\n"@
                + dependency_lines_model(all.take(i + 1)));
        }
        i = i + 1;
    }
    out.append(override_block);
    proof {
        assert(all.take(deps@.len() as int) =~= all);
        assert(out@ =~= compose_manifest_model(identity@, all, override_block@));
    }
    out
}

} // verus!
