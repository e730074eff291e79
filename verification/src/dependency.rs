//! The descriptor for one shared Dimension library: an immutable name/version
//! pair together with the library's conventional location relative to a
//! dimension-node workspace root.

use vstd::prelude::*;

verus! {

use vstd::string::StringExecFns;

/// Mathematical model of a [`Dependency`]: the three strings as character
/// sequences.
pub ghost struct DependencyModel {
    pub name: Seq<char>,
    pub version: Seq<char>,
    pub relative_path: Seq<char>,
}

/// One shared library every generated package depends on: its registered
/// crate name, the published version to declare, and the fixed sub-path at
/// which a local copy of the dimension-node workspace holds it.
#[derive(Debug)]
pub struct Dependency {
    name: String,
    version: String,
    relative_path: String,
}

impl View for Dependency {
    type V = DependencyModel;

    closed spec fn view(&self) -> DependencyModel {
        DependencyModel {
            name: self.name@,
            version: self.version@,
            relative_path: self.relative_path@,
        }
    }
}

impl DeepView for Dependency {
    type V = DependencyModel;

    open spec fn deep_view(&self) -> DependencyModel {
        self.view()
    }
}

/// A character a semantic-version-shaped string may hold: a decimal digit or
/// a dot.
pub open spec fn is_version_char(c: char) -> bool {
    c == '.' || ('0' <= c && c <= '9')
}

/// A version string is version-shaped when it is non-empty, made of digits
/// and dots only, and neither starts nor ends with a dot.
pub open spec fn is_version_shaped(s: Seq<char>) -> bool {
    &&& s.len() > 0
    &&& forall|i: int| 0 <= i < s.len() ==> is_version_char(#[trigger] s[i])
    &&& s[0] != '.'
    &&& s[s.len() - 1] != '.'
}

impl DependencyModel {
    /// The registry's invariant on a single entry: non-empty name and
    /// relative path, version-shaped version.
    pub open spec fn well_formed(self) -> bool {
        &&& self.name.len() > 0
        &&& is_version_shaped(self.version)
        &&& self.relative_path.len() > 0
    }
}

impl Clone for Dependency {
    fn clone(&self) -> (r: Self)
        ensures
            r@ == self@,
    {
        Dependency {
            name: self.name.clone(),
            version: self.version.clone(),
            relative_path: self.relative_path.clone(),
        }
    }
}

impl Dependency {
    pub fn new(name: &str, version: &str, relative_path: &str) -> (d: Dependency)
        requires
            name@.len() > 0,
            is_version_shaped(version@),
            relative_path@.len() > 0,
        ensures
            d@ == (DependencyModel { name: name@, version: version@, relative_path: relative_path@ }),
    {
        Dependency {
            name: String::from_str(name),
            version: String::from_str(version),
            relative_path: String::from_str(relative_path),
        }
    }

    pub fn name(&self) -> (r: &str)
        ensures
            r@ == self@.name,
    {
        self.name.as_str()
    }

    pub fn version(&self) -> (r: &str)
        ensures
            r@ == self@.version,
    {
        self.version.as_str()
    }

    pub fn relative_path(&self) -> (r: &str)
        ensures
            r@ == self@.relative_path,
    {
        self.relative_path.as_str()
    }
}

} // verus!
