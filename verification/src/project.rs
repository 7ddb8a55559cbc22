//! The project manifest: the list of a project's components.

use vstd::prelude::*;
use crate::algorithm_lens::owned_opt;

verus! {

/// Manifest of a Chainsight project.
#[derive(Clone, Debug)]
pub struct ProjectManifestData {
    pub version: String,
    pub label: String,
    pub components: Vec<ProjectManifestComponentField>,
}

/// Where a component's manifest lies, relative to the project.
#[derive(Clone, Debug)]
pub struct ProjectManifestComponentField {
    pub component_path: String,
}

pub open spec fn component_paths(c: Seq<ProjectManifestComponentField>) -> Seq<Seq<char>> {
    c.map_values(|f: ProjectManifestComponentField| f.component_path@)
}

impl ProjectManifestComponentField {
    pub fn new(component_path: &str, _canister_id: Option<String>) -> (res: Self)
        ensures
            res.component_path@ == component_path@,
    {
        ProjectManifestComponentField { component_path: String::from_str(component_path) }
    }

    fn duplicate(&self) -> (res: Self)
        ensures
            res.component_path@ == self.component_path@,
    {
        ProjectManifestComponentField { component_path: self.component_path.clone() }
    }
}

fn append_fields(dst: &mut Vec<ProjectManifestComponentField>, src: &[ProjectManifestComponentField])
    ensures
        component_paths(final(dst)@) == component_paths(old(dst)@) + component_paths(src@),
{
    let ghost start = component_paths(dst@);
    let mut i: usize = 0;
    while i < src.len()
        invariant
            i <= src@.len(),
            start == component_paths(old(dst)@),
            component_paths(dst@) =~= start + component_paths(src@.take(i as int)),
        decreases src@.len() - i,
    {
        let f = src[i].duplicate();
        let ghost before = dst@;
        dst.push(f);
        assert(src@.take(i + 1) =~= src@.take(i as int).push(src@[i as int]));
        assert(component_paths(dst@) =~= component_paths(before).push(src@[i as int].component_path@));
        i = i + 1;
    }
    assert(src@.take(i as int) =~= src@);
}

impl ProjectManifestData {
    pub fn new(project_name: &str, version: &str, components: &[ProjectManifestComponentField]) -> (res: Self)
        ensures
            res.version@ == version@,
            res.label@ == project_name@,
            component_paths(res.components@) == component_paths(components@),
    {
        let mut list: Vec<ProjectManifestComponentField> = Vec::new();
        append_fields(&mut list, components);
        assert(component_paths(Seq::<ProjectManifestComponentField>::empty()) + component_paths(components@) =~= component_paths(components@));
        ProjectManifestData { version: String::from_str(version), label: String::from_str(project_name), components: list }
    }

    /// Adds components at the end of the list; it always succeeds.
    pub fn add_components(&mut self, components: &[ProjectManifestComponentField]) -> (res: Result<(), String>)
        ensures
            res is Ok,
            component_paths(final(self).components@) == component_paths(old(self).components@) + component_paths(components@),
            final(self).version == old(self).version,
            final(self).label == old(self).label,
    {
        append_fields(&mut self.components, components);
        Ok(())
    }
}

/// The name of a file without its directory and its last extension, as
/// `Path::file_stem` gives it, if it has one.
pub uninterp spec fn file_stem_of(path: Seq<char>) -> Option<Seq<char>>;

/// Calls `Path::file_stem` and reads the stem back as text. Claimed: the
/// named result of the path; a stem of a path made of text is text.
#[verifier::external_body]
fn file_stem(path: &str) -> (res: Option<String>)
    ensures
        owned_opt(res) == file_stem_of(path@),
{
    match std::path::Path::new(path).file_stem() {
        Some(s) => match s.to_str() {
            Some(t) => Some(t.to_string()),
            None => None,
        },
        None => None,
    }
}

/// The path of a component's manifest within a project.
pub open spec fn manifest_path_spec(project_path: Seq<char>, component_path: Seq<char>) -> Seq<char> {
    project_path + "/"@ + component_path
}

impl ProjectManifestComponentField {
    /// Where the component's manifest lies under the project, and the id the
    /// component takes from its file name. The manifest's path must name a
    /// file.
    pub fn manifest_location(&self, project_path: &str) -> (res: (String, String))
        requires
            file_stem_of(manifest_path_spec(project_path@, self.component_path@)) is Some,
        ensures
            res.0@ == manifest_path_spec(project_path@, self.component_path@),
            Some(res.1@) == file_stem_of(res.0@),
    {
        let mut path = String::from_str(project_path);
        path.append("/");
        path.append(self.component_path.as_str());
        let id = match file_stem(path.as_str()) {
            Some(id) => id,
            None => String::new(),
        };
        (path, id)
    }

    /// Where the component's manifest lies and the id it takes, or `None`
    /// where the path names no file.
    pub fn try_manifest_location(&self, project_path: &str) -> (res: Option<(String, String)>)
        ensures
            match res {
                Some(r) => r.0@ == manifest_path_spec(project_path@, self.component_path@) && Some(r.1@) == file_stem_of(r.0@),
                None => file_stem_of(manifest_path_spec(project_path@, self.component_path@)) is None,
            },
    {
        let mut path = String::from_str(project_path);
        path.append("/");
        path.append(self.component_path.as_str());
        if file_stem(path.as_str()).is_some() {
            Some(self.manifest_location(project_path))
        } else {
            None
        }
    }
}

} // verus!
