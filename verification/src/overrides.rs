//! Override selection and patch-section rendering: the mutually exclusive
//! choice among published versions, a local workspace copy, and a remote
//! branch of the dimension-node repository, and the manifest text block that
//! redirects the shared dependencies accordingly.

use vstd::prelude::*;

verus! {

use vstd::string::StringExecFns;
use crate::dependency::{Dependency, DependencyModel};
use crate::text::{
    contains_seq, lemma_contains_concat_left, lemma_contains_concat_right, lemma_contains_self,
    lemma_contains_trans,
};

/// Mathematical model of an active override.
pub ghost enum OverrideModel {
    WorkspacePath { path: Seq<char> },
    GitRepo { url: Seq<char>, branch: Seq<char> },
}

/// Can be used (via hidden command line arguments) to redirect the shared
/// Dimension dependencies in the generated manifests. Exactly one case is
/// active; `None` at the use sites means every dependency keeps its
/// registered published version.
#[derive(Debug)]
pub enum DimensionOverrides {
    /// The path to a local copy of the dimension-node repository.
    WorkspacePath(String),
    /// The details of an online copy of the dimension-node repository.
    GitRepo { url: String, branch: String },
}

impl View for DimensionOverrides {
    type V = OverrideModel;

    open spec fn view(&self) -> OverrideModel {
        match self {
            DimensionOverrides::WorkspacePath(path) => OverrideModel::WorkspacePath {
                path: path@,
            },
            DimensionOverrides::GitRepo { url, branch } => OverrideModel::GitRepo {
                url: url@,
                branch: branch@,
            },
        }
    }
}

/// The model of a resolved selection: `None` means no override is active.
pub open spec fn selection_model(selection: &Option<DimensionOverrides>) -> Option<OverrideModel> {
    match selection {
        Option::None => Option::None,
        Option::Some(ov) => Option::Some(ov@),
    }
}

/// A combination of override inputs that the argument layer must never hand
/// over: a fatal configuration error, not a user-recoverable one.
#[derive(Debug, PartialEq, Eq, Structural)]
pub enum OverrideArgsError {
    /// Both a local workspace path and a remote field were supplied.
    ConflictingSources,
    /// Only one of the remote url/branch pair was supplied.
    IncompleteRemote,
}

/// Resolves the three optional override inputs into the selection, enforcing
/// mutual exclusivity: a local path alone gives a workspace-path override,
/// both remote fields alone give a remote-branch override, nothing gives no
/// override, and every other combination fails rather than silently
/// preferring one source.
pub fn resolve_overrides(
    workspace_path: Option<String>,
    git_url: Option<String>,
    git_branch: Option<String>,
) -> (r: Result<Option<DimensionOverrides>, OverrideArgsError>)
    ensures
        r == (match (workspace_path, git_url, git_branch) {
            (Option::Some(path), Option::None, Option::None) => Result::<
                Option<DimensionOverrides>,
                OverrideArgsError,
            >::Ok(Option::Some(DimensionOverrides::WorkspacePath(path))),
            (Option::None, Option::Some(url), Option::Some(branch)) => Result::Ok(
                Option::Some(DimensionOverrides::GitRepo { url, branch }),
            ),
            (Option::None, Option::None, Option::None) => Result::Ok(Option::None),
            (Option::Some(_), Option::Some(_), _) => Result::Err(
                OverrideArgsError::ConflictingSources,
            ),
            (Option::Some(_), _, Option::Some(_)) => Result::Err(
                OverrideArgsError::ConflictingSources,
            ),
            (Option::None, Option::Some(_), Option::None) => Result::Err(
                OverrideArgsError::IncompleteRemote,
            ),
            (Option::None, Option::None, Option::Some(_)) => Result::Err(
                OverrideArgsError::IncompleteRemote,
            ),
        }),
{
    match (workspace_path, git_url, git_branch) {
        (Option::Some(path), Option::None, Option::None) => Result::Ok(
            Option::Some(DimensionOverrides::WorkspacePath(path)),
        ),
        (Option::None, Option::Some(url), Option::Some(branch)) => Result::Ok(
            Option::Some(DimensionOverrides::GitRepo { url, branch }),
        ),
        (Option::None, Option::None, Option::None) => Result::Ok(Option::None),
        (Option::Some(_), Option::Some(_), _) => Result::Err(
            OverrideArgsError::ConflictingSources,
        ),
        (Option::Some(_), _, Option::Some(_)) => Result::Err(
            OverrideArgsError::ConflictingSources,
        ),
        (Option::None, Option::Some(_), Option::None) => Result::Err(
            OverrideArgsError::IncompleteRemote,
        ),
        (Option::None, Option::None, Option::Some(_)) => Result::Err(
            OverrideArgsError::IncompleteRemote,
        ),
    }
}

/// The header line shared by every rendered patch section.
pub open spec fn patch_header() -> Seq<char> {
    "[patch.crates-io]\n"@
}

/// One override entry: the dependency's name redirected either to the local
/// workspace copy at its fixed sub-path, or to the remote repository at the
/// given branch.
pub open spec fn override_entry_model(ov: OverrideModel, d: DependencyModel) -> Seq<char> {
    match ov {
        OverrideModel::WorkspacePath { path } => d.name + " = { path = \""@ + path + "/"@
            + d.relative_path + "\" }\n"@,
        OverrideModel::GitRepo { url, branch } => d.name + " = { git = \""@ + url
            + "\", branch = \""@ + branch + "\" }\n"@,
    }
}

/// The entries of a patch section: one per needed dependency, in registry
/// order.
pub open spec fn override_entries_model(ov: OverrideModel, deps: Seq<DependencyModel>) -> Seq<char>
    decreases deps.len(),
{
    if deps.len() == 0 {
        Seq::empty()
    } else {
        override_entries_model(ov, deps.drop_last()) + override_entry_model(ov, deps.last())
    }
}

/// The whole patch section for one manifest: empty when no override is
/// selected, else the shared header followed by one entry per needed
/// dependency.
pub open spec fn patch_section_model(
    sel: Option<OverrideModel>,
    deps: Seq<DependencyModel>,
) -> Seq<char> {
    match sel {
        Option::None => Seq::empty(),
        Option::Some(ov) => patch_header() + override_entries_model(ov, deps),
    }
}

/// With no override selected, nothing is rendered: the patch section is the
/// empty string, whatever dependencies the manifest needs.
pub proof fn lemma_no_override_renders_nothing(deps: Seq<DependencyModel>)
    ensures
        patch_section_model(Option::None, deps) == Seq::<char>::empty(),
{
}

/// Each needed dependency's entry occurs in the rendered entry list.
pub proof fn lemma_override_entries_contain_each(ov: OverrideModel, deps: Seq<DependencyModel>)
    ensures
        forall|i: int|
            0 <= i < deps.len() ==> contains_seq(
                override_entries_model(ov, deps),
                override_entry_model(ov, #[trigger] deps[i]),
            ),
    decreases deps.len(),
{
    if deps.len() > 0 {
        lemma_override_entries_contain_each(ov, deps.drop_last());
        assert forall|i: int| 0 <= i < deps.len() implies contains_seq(
            override_entries_model(ov, deps),
            override_entry_model(ov, #[trigger] deps[i]),
        ) by {
            if i < deps.len() - 1 {
                assert(deps.drop_last()[i] == deps[i]);
                lemma_contains_concat_left(
                    override_entries_model(ov, deps.drop_last()),
                    override_entry_model(ov, deps.last()),
                    override_entry_model(ov, deps[i]),
                );
            } else {
                lemma_contains_self(override_entry_model(ov, deps.last()));
                lemma_contains_concat_right(
                    override_entries_model(ov, deps.drop_last()),
                    override_entry_model(ov, deps.last()),
                    override_entry_model(ov, deps.last()),
                );
            }
        }
    }
}

/// An override entry mentions the dependency's registered name.
pub proof fn lemma_override_entry_contains_name(ov: OverrideModel, d: DependencyModel)
    ensures
        contains_seq(override_entry_model(ov, d), d.name),
{
    let k: int = 0;
    match ov {
        OverrideModel::WorkspacePath { path } => {
            assert((d.name + " = { path = \""@).subrange(k, k + d.name.len()) =~= d.name);
            lemma_contains_concat_left(d.name + " = { path = \""@, path, d.name);
            lemma_contains_concat_left(d.name + " = { path = \""@ + path, "/"@, d.name);
            lemma_contains_concat_left(
                d.name + " = { path = \""@ + path + "/"@,
                d.relative_path,
                d.name,
            );
            lemma_contains_concat_left(
                d.name + " = { path = \""@ + path + "/"@ + d.relative_path,
                "\" }\n"@,
                d.name,
            );
        },
        OverrideModel::GitRepo { url, branch } => {
            assert((d.name + " = { git = \""@).subrange(k, k + d.name.len()) =~= d.name);
            lemma_contains_concat_left(d.name + " = { git = \""@, url, d.name);
            lemma_contains_concat_left(d.name + " = { git = \""@ + url, "\", branch = \""@, d.name);
            lemma_contains_concat_left(
                d.name + " = { git = \""@ + url + "\", branch = \""@,
                branch,
                d.name,
            );
            lemma_contains_concat_left(
                d.name + " = { git = \""@ + url + "\", branch = \""@ + branch,
                "\" }\n"@,
                d.name,
            );
        },
    }
}

/// For a local-path override, the patch section is the shared header followed
/// by one entry per needed dependency in registry order; each entry points at
/// the workspace root joined with that dependency's fixed sub-path; and the
/// section mentions every needed dependency's name.
pub proof fn lemma_local_override_section(path: Seq<char>, deps: Seq<DependencyModel>)
    ensures
        patch_section_model(Option::Some(OverrideModel::WorkspacePath { path }), deps)
            == patch_header() + override_entries_model(
            OverrideModel::WorkspacePath { path },
            deps,
        ),
        forall|i: int|
            0 <= i < deps.len() ==> override_entry_model(
                OverrideModel::WorkspacePath { path },
                #[trigger] deps[i],
            ) == deps[i].name + " = { path = \""@ + path + "/"@ + deps[i].relative_path
                + "\" }\n"@,
        forall|i: int|
            0 <= i < deps.len() ==> contains_seq(
                patch_section_model(Option::Some(OverrideModel::WorkspacePath { path }), deps),
                (#[trigger] deps[i]).name,
            ),
{
    let ov = OverrideModel::WorkspacePath { path };
    lemma_override_entries_contain_each(ov, deps);
    assert forall|i: int| 0 <= i < deps.len() implies contains_seq(
        patch_section_model(Option::Some(ov), deps),
        (#[trigger] deps[i]).name,
    ) by {
        lemma_override_entry_contains_name(ov, deps[i]);
        lemma_contains_trans(
            override_entries_model(ov, deps),
            override_entry_model(ov, deps[i]),
            deps[i].name,
        );
        lemma_contains_concat_right(patch_header(), override_entries_model(ov, deps), deps[i].name);
    }
}

/// For a remote-branch override, each entry references exactly the given
/// repository and branch, and a non-empty section mentions both, beside every
/// needed dependency's name.
pub proof fn lemma_remote_override_section(
    url: Seq<char>,
    branch: Seq<char>,
    deps: Seq<DependencyModel>,
)
    ensures
        patch_section_model(Option::Some(OverrideModel::GitRepo { url, branch }), deps)
            == patch_header() + override_entries_model(
            OverrideModel::GitRepo { url, branch },
            deps,
        ),
        forall|i: int|
            0 <= i < deps.len() ==> override_entry_model(
                OverrideModel::GitRepo { url, branch },
                #[trigger] deps[i],
            ) == deps[i].name + " = { git = \""@ + url + "\", branch = \""@ + branch + "\" }\n"@,
        forall|i: int|
            0 <= i < deps.len() ==> contains_seq(
                patch_section_model(Option::Some(OverrideModel::GitRepo { url, branch }), deps),
                (#[trigger] deps[i]).name,
            ),
        deps.len() > 0 ==> contains_seq(
            patch_section_model(Option::Some(OverrideModel::GitRepo { url, branch }), deps),
            url,
        ),
        deps.len() > 0 ==> contains_seq(
            patch_section_model(Option::Some(OverrideModel::GitRepo { url, branch }), deps),
            branch,
        ),
{
    let ov = OverrideModel::GitRepo { url, branch };
    lemma_override_entries_contain_each(ov, deps);
    assert forall|i: int| 0 <= i < deps.len() implies contains_seq(
        patch_section_model(Option::Some(ov), deps),
        (#[trigger] deps[i]).name,
    ) by {
        lemma_override_entry_contains_name(ov, deps[i]);
        lemma_contains_trans(
            override_entries_model(ov, deps),
            override_entry_model(ov, deps[i]),
            deps[i].name,
        );
        lemma_contains_concat_right(patch_header(), override_entries_model(ov, deps), deps[i].name);
    }
    if deps.len() > 0 {
        let d = deps[0];
        lemma_contains_self(url);
        lemma_contains_concat_right(d.name + " = { git = \""@, url, url);
        lemma_contains_concat_left(d.name + " = { git = \""@ + url, "\", branch = \""@, url);
        lemma_contains_concat_left(
            d.name + " = { git = \""@ + url + "\", branch = \""@,
            branch,
            url,
        );
        lemma_contains_concat_left(
            d.name + " = { git = \""@ + url + "\", branch = \""@ + branch,
            "\" }\n"@,
            url,
        );
        lemma_contains_self(branch);
        lemma_contains_concat_right(
            d.name + " = { git = \""@ + url + "\", branch = \""@,
            branch,
            branch,
        );
        lemma_contains_concat_left(
            d.name + " = { git = \""@ + url + "\", branch = \""@ + branch,
            "\" }\n"@,
            branch,
        );
        lemma_contains_trans(override_entries_model(ov, deps), override_entry_model(ov, d), url);
        lemma_contains_concat_right(patch_header(), override_entries_model(ov, deps), url);
        lemma_contains_trans(override_entries_model(ov, deps), override_entry_model(ov, d), branch);
        lemma_contains_concat_right(patch_header(), override_entries_model(ov, deps), branch);
    }
}

fn push_override_entry(out: &mut String, ov: &DimensionOverrides, d: &Dependency)
    ensures
        final(out)@ == old(out)@ + override_entry_model(ov@, d@),
{
    match ov {
        DimensionOverrides::WorkspacePath(path) => {
            out.append(d.name());
            out.append(" = { path = \"");
            out.append(path.as_str());
            out.append("/");
            out.append(d.relative_path());
            out.append("\" }\n");
        },
        DimensionOverrides::GitRepo { url, branch } => {
            out.append(d.name());
            out.append(" = { git = \"");
            out.append(url.as_str());
            out.append("\", branch = \"");
            out.append(branch.as_str());
            out.append("\" }\n");
        },
    }
    proof {
        assert(out@ =~= old(out)@ + override_entry_model(ov@, d@));
    }
}

/// Renders the patch section of one manifest from the resolved selection and
/// that manifest's needed dependencies.
pub fn render_patch_section(selection: &Option<DimensionOverrides>, deps: &Vec<Dependency>) -> (r:
    String)
    ensures
        r@ == patch_section_model(selection_model(selection), deps.deep_view()),
{
    let mut out = String::new();
    match selection {
        Option::None => {},
        Option::Some(ov) => {
            out.append("[patch.crates-io]\n");
            proof {
                assert(deps.deep_view().take(0) =~= Seq::<DependencyModel>::empty());
                assert(out@ =~= patch_header() + override_entries_model(
                    ov@,
                    deps.deep_view().take(0),
                ));
            }
            let ghost all = deps.deep_view();
            let mut i: usize = 0;
            while i < deps.len()
                invariant
                    i <= deps.len(),
                    all == deps.deep_view(),
                    all.len() == deps@.len(),
                    out@ == patch_header() + override_entries_model(ov@, all.take(i as int)),
                decreases deps.len() - i,
            {
                push_override_entry(&mut out, ov, &deps[i]);
                proof {
                    assert(all.take(i + 1).drop_last() =~= all.take(i as int));
                    assert(all.take(i + 1).last() == all[i as int]);
                    assert(out@ =~= patch_header() + override_entries_model(
                        ov@,
                        all.take(i + 1),
                    ));
                }
                i = i + 1;
            }
            proof {
                assert(all.take(deps@.len() as int) =~= all);
            }
        },
    }
    out
}

} // verus!
