//! Where everything lives on disk.
//!
//! Each build gets a workspace of its own below the generate root: a
//! directory named after the module (and after the build attempt, where the
//! request carries an identifier) that holds the manifest at its top and the
//! source text under `src/`. The toolchain leaves the library below
//! `target/release/` inside the workspace; from there it is moved into the
//! shared output directory under a name that depends on the module name
//! alone.

use vstd::prelude::*;
use vstd::string::*;
use crate::name::{ident_char, valid_segment};
use crate::request::{BuildRequest, RequestModel};

verus! {

/// `entry` inside the directory `dir`.
pub open spec fn join(dir: Seq<char>, entry: Seq<char>) -> Seq<char> {
    dir + seq!['/'] + entry
}

/// The file name of the library built for the module `name`.
pub open spec fn library_file(name: Seq<char>, extension: Seq<char>) -> Seq<char> {
    name + seq!['.'] + extension
}

/// The name of the workspace directory of a request: the module name, and
/// after a dot the build identifier where there is one.
pub open spec fn workspace_dir(name: Seq<char>, build_id: Option<Seq<char>>) -> Seq<char> {
    match build_id {
        Some(id) => name + seq!['.'] + id,
        None => name,
    }
}

/// The three texts that fix a layout.
pub struct LayoutModel {
    /// The directory below which workspaces are created.
    pub generate_root: Seq<char>,
    /// The shared output directory.
    pub output_root: Seq<char>,
    /// The file extension of a shared library, without the dot.
    pub extension: Seq<char>,
}

impl LayoutModel {
    /// The layout with the roots `./generate` and `./out` and the extension
    /// `dll`.
    pub open spec fn standard() -> LayoutModel {
        LayoutModel { generate_root: "./generate"@, output_root: "./out"@, extension: "dll"@ }
    }

    /// The root of the workspace of `request`.
    pub open spec fn workspace_root(self, request: RequestModel) -> Seq<char> {
        join(self.generate_root, workspace_dir(request.name, request.build_id))
    }

    /// The workspace of `request`.
    pub open spec fn workspace(self, request: RequestModel) -> WorkspaceModel {
        let root = self.workspace_root(request);
        WorkspaceModel {
            root_path: root,
            source_tree_path: join(root, "src"@),
            manifest_path: join(root, "Cargo.toml"@),
            source_path: join(join(root, "src"@), "lib.rs"@),
        }
    }

    /// Where the toolchain leaves the library of the module `name` when it
    /// runs in the workspace rooted at `root`.
    pub open spec fn transient_path(self, root: Seq<char>, name: Seq<char>) -> Seq<char> {
        join(join(join(root, "target"@), "release"@), library_file(name, self.extension))
    }

    /// Where the library of the module `name` ends up.
    pub open spec fn final_path(self, name: Seq<char>) -> Seq<char> {
        join(self.output_root, library_file(name, self.extension))
    }

    /// The artifact of `request`.
    pub open spec fn artifact(self, request: RequestModel) -> ArtifactModel {
        ArtifactModel {
            transient_path: self.transient_path(self.workspace_root(request), request.name),
            final_path: self.final_path(request.name),
        }
    }
}

/// The paths of a workspace, as plain texts.
pub struct WorkspaceModel {
    pub root_path: Seq<char>,
    pub source_tree_path: Seq<char>,
    pub manifest_path: Seq<char>,
    pub source_path: Seq<char>,
}

/// The two places of an artifact, as plain texts.
pub struct ArtifactModel {
    pub transient_path: Seq<char>,
    pub final_path: Seq<char>,
}

/// The configuration of the on-disk layout: where workspaces are created,
/// where finished libraries are collected, and which extension a shared
/// library has on this platform.
#[derive(Debug, PartialEq, Eq)]
pub struct Layout {
    pub generate_root: String,
    pub output_root: String,
    pub extension: String,
}

impl View for Layout {
    type V = LayoutModel;

    open spec fn view(&self) -> LayoutModel {
        LayoutModel {
            generate_root: self.generate_root@,
            output_root: self.output_root@,
            extension: self.extension@,
        }
    }
}

/// The directory tree of one build attempt.
#[derive(Debug, PartialEq, Eq)]
pub struct Workspace {
    /// The top of the tree. The toolchain runs here.
    pub root_path: String,
    /// The directory that holds the source text.
    pub source_tree_path: String,
    /// The manifest file.
    pub manifest_path: String,
    /// The file that holds the source text.
    pub source_path: String,
}

impl View for Workspace {
    type V = WorkspaceModel;

    open spec fn view(&self) -> WorkspaceModel {
        WorkspaceModel {
            root_path: self.root_path@,
            source_tree_path: self.source_tree_path@,
            manifest_path: self.manifest_path@,
            source_path: self.source_path@,
        }
    }
}

/// The library that a build produces.
#[derive(Debug, PartialEq, Eq)]
pub struct Artifact {
    /// Where the toolchain leaves it, inside the workspace.
    pub transient_path: String,
    /// Where it is kept, inside the shared output directory.
    pub final_path: String,
}

impl View for Artifact {
    type V = ArtifactModel;

    open spec fn view(&self) -> ArtifactModel {
        ArtifactModel { transient_path: self.transient_path@, final_path: self.final_path@ }
    }
}

/// Builds the path of `entry` inside `dir`.
pub fn join_path(dir: &str, entry: &str) -> (path: String)
    ensures
        path@ == join(dir@, entry@),
{
    let mut path = String::from_str(dir);
    path.append("/");
    path.append(entry);
    proof {
        reveal_strlit("/");
        assert("/"@ =~= seq!['/']);
    }
    path
}

/// Builds the file name of the library of the module `name`.
pub fn library_file_name(name: &str, extension: &str) -> (file: String)
    ensures
        file@ == library_file(name@, extension@),
{
    let mut file = String::from_str(name);
    file.append(".");
    file.append(extension);
    proof {
        reveal_strlit(".");
        assert("."@ =~= seq!['.']);
    }
    file
}

impl Layout {
    /// A layout with the given roots and library extension.
    pub fn new(generate_root: &str, output_root: &str, extension: &str) -> (layout: Layout)
        ensures
            layout@ == (LayoutModel {
                generate_root: generate_root@,
                output_root: output_root@,
                extension: extension@,
            }),
    {
        Layout {
            generate_root: String::from_str(generate_root),
            output_root: String::from_str(output_root),
            extension: String::from_str(extension),
        }
    }

    /// The standard layout.
    pub fn standard() -> (layout: Layout)
        ensures
            layout@ == LayoutModel::standard(),
    {
        Layout::new("./generate", "./out", "dll")
    }

    /// The workspace of `request`. Nothing is created: these are the paths at
    /// which the driver will create it.
    pub fn workspace(&self, request: &BuildRequest) -> (workspace: Workspace)
        ensures
            workspace@ == self@.workspace(request@),
    {
        let dir = match request.build_id() {
            Some(id) => library_file_name(request.name(), id),
            None => String::from_str(request.name()),
        };
        let root = join_path(self.generate_root.as_str(), dir.as_str());
        let source_tree = join_path(root.as_str(), "src");
        let manifest = join_path(root.as_str(), "Cargo.toml");
        let source = join_path(source_tree.as_str(), "lib.rs");
        Workspace {
            root_path: root,
            source_tree_path: source_tree,
            manifest_path: manifest,
            source_path: source,
        }
    }

    /// The artifact of `request`, built in `workspace`.
    pub fn artifact(&self, workspace: &Workspace, request: &BuildRequest) -> (artifact: Artifact)
        ensures
            artifact@ == (ArtifactModel {
                transient_path: self@.transient_path(workspace@.root_path, request@.name),
                final_path: self@.final_path(request@.name),
            }),
    {
        let file = library_file_name(request.name(), self.extension.as_str());
        let target = join_path(workspace.root_path.as_str(), "target");
        let release = join_path(target.as_str(), "release");
        Artifact {
            transient_path: join_path(release.as_str(), file.as_str()),
            final_path: join_path(self.output_root.as_str(), file.as_str()),
        }
    }
}

/// Whether `path` is the directory `dir` itself or lies somewhere below it.
pub open spec fn within(dir: Seq<char>, path: Seq<char>) -> bool {
    &&& dir.is_prefix_of(path)
    &&& path.len() > dir.len() ==> path[dir.len() as int] == '/'
}

/// Two requests are the same build attempt of the same module.
pub open spec fn same_attempt(a: RequestModel, b: RequestModel) -> bool {
    a.name == b.name && a.build_id == b.build_id
}

/// Everything below a directory's entry is below the directory.
pub proof fn lemma_within_join(dir: Seq<char>, entry: Seq<char>, path: Seq<char>)
    requires
        within(join(dir, entry), path),
    ensures
        within(dir, path),
{
    let sub = join(dir, entry);
    assert(dir =~= sub.subrange(0, dir.len() as int));
    assert(sub =~= path.subrange(0, sub.len() as int));
    assert(dir =~= path.subrange(0, dir.len() as int));
    assert(path[dir.len() as int] == sub[dir.len() as int]);
}

/// A directory holds itself and each of its entries.
pub proof fn lemma_within_entry(dir: Seq<char>, entry: Seq<char>)
    ensures
        within(dir, dir),
        within(dir, join(dir, entry)),
{
    assert(dir =~= dir.subrange(0, dir.len() as int));
    assert(dir =~= join(dir, entry).subrange(0, dir.len() as int));
}

/// The name of a workspace directory holds no path separator, and tells
/// build attempts apart.
proof fn lemma_workspace_dir(a: RequestModel, b: RequestModel)
    requires
        a.wf(),
        b.wf(),
    ensures
        forall|i: int|
            0 <= i < workspace_dir(a.name, a.build_id).len() ==> workspace_dir(
                a.name,
                a.build_id,
            )[i] != '/',
        workspace_dir(a.name, a.build_id) == workspace_dir(b.name, b.build_id) ==> same_attempt(
            a,
            b,
        ),
{
    let da = workspace_dir(a.name, a.build_id);
    let db = workspace_dir(b.name, b.build_id);
    let na = a.name.len() as int;
    let nb = b.name.len() as int;
    assert forall|i: int| 0 <= i < da.len() implies da[i] != '/' by {
        if i < na {
            assert(ident_char(a.name[i]));
        } else if i > na {
            assert(ident_char(a.build_id->0[i - na - 1]));
        }
    }
    if da == db {
        // The first dot, if any, ends the module name on both sides.
        if na < nb {
            assert(ident_char(b.name[na]));
            assert(db[na] == b.name[na]);
            if a.build_id is Some {
                assert(da[na] == '.');
            }
            assert(false);
        }
        if nb < na {
            assert(ident_char(a.name[nb]));
            assert(da[nb] == a.name[nb]);
            if b.build_id is Some {
                assert(db[nb] == '.');
            }
            assert(false);
        }
        assert(a.name =~= b.name) by {
            assert forall|i: int| 0 <= i < na implies a.name[i] == b.name[i] by {
                assert(da[i] == a.name[i]);
                assert(db[i] == b.name[i]);
            }
        }
        match (a.build_id, b.build_id) {
            (Some(x), Some(y)) => {
                assert(x =~= y) by {
                    assert(da.len() == na + 1 + x.len());
                    assert(db.len() == nb + 1 + y.len());
                    assert forall|i: int| 0 <= i < x.len() implies x[i] == y[i] by {
                        assert(da[na + 1 + i] == x[i]);
                        assert(db[na + 1 + i] == y[i]);
                    }
                }
            },
            (Some(x), None) => {
                assert(da.len() == na + 1 + x.len());
                assert(false);
            },
            (None, Some(y)) => {
                assert(db.len() == nb + 1 + y.len());
                assert(false);
            },
            (None, None) => {},
        }
    }
}

impl LayoutModel {
    /// The final path of a module is the output root, a separator, and the
    /// module's library file name: it ends in `<name>.<extension>` and does
    /// not depend on the build attempt.
    pub proof fn law_final_path_ends_in_library_file(self, request: RequestModel)
        ensures
            ({
                let path = self.artifact(request).final_path;
                let file = library_file(request.name, self.extension);
                &&& path.len() == self.output_root.len() + 1 + file.len()
                &&& path.subrange(path.len() - file.len(), path.len() as int) == file
                &&& path[path.len() - file.len() - 1] == '/'
                &&& path.subrange(0, self.output_root.len() as int) == self.output_root
            }),
    {
        let path = self.artifact(request).final_path;
        let file = library_file(request.name, self.extension);
        assert(path.subrange(path.len() - file.len(), path.len() as int) =~= file);
        assert(path.subrange(0, self.output_root.len() as int) =~= self.output_root);
    }

    /// The final path of a library is fixed by the module name: the source
    /// text and the build attempt play no part in it.
    pub proof fn law_final_path_depends_on_name_only(self, a: RequestModel, b: RequestModel)
        requires
            a.name == b.name,
        ensures
            self.artifact(a).final_path == self.artifact(b).final_path,
    {
    }

    /// Where the output directory does not lie within the generate root,
    /// neither it nor the final path of the library lies within the
    /// workspace: removing the workspace leaves both alone.
    pub proof fn law_output_lies_outside_workspace(self, request: RequestModel)
        requires
            request.wf(),
            forall|i: int| 0 <= i < self.extension.len() ==> self.extension[i] != '/',
            !within(self.generate_root, self.output_root),
        ensures
            !within(self.workspace_root(request), self.output_root),
            !within(self.workspace_root(request), self.final_path(request.name)),
    {
        let gen = self.generate_root;
        let out = self.output_root;
        let root = self.workspace_root(request);
        let file = library_file(request.name, self.extension);
        let path = self.final_path(request.name);
        let g = gen.len() as int;
        let o = out.len() as int;
        assert(root[g] == '/');
        assert forall|i: int| 0 <= i < g implies root[i] == gen[i] by {}
        if within(root, out) {
            assert(root =~= out.subrange(0, root.len() as int));
            assert(gen =~= out.subrange(0, g)) by {
                assert forall|i: int| 0 <= i < g implies gen[i] == out[i] by {
                    assert(out[i] == root[i]);
                }
            }
            assert(out[g] == root[g]);
            assert(false);
        }
        if within(root, path) {
            assert(root =~= path.subrange(0, root.len() as int));
            assert forall|i: int| 0 <= i < o implies path[i] == out[i] by {}
            if g > o {
                // The separator in front of the workspace directory would
                // have to lie inside the file name.
                assert(path[g] == root[g]);
                assert(path[g] == file[g - o - 1]);
                let j = g - o - 1;
                if j < request.name.len() {
                    assert(ident_char(request.name[j]));
                } else if j > request.name.len() {
                    assert(file[j] == self.extension[j - request.name.len() - 1]);
                }
                assert(false);
            } else {
                assert(gen =~= out.subrange(0, g)) by {
                    assert forall|i: int| 0 <= i < g implies gen[i] == out[i] by {
                        assert(path[i] == root[i]);
                    }
                }
                if g < o {
                    assert(out[g] == path[g]);
                    assert(path[g] == root[g]);
                }
                assert(false);
            }
        }
    }

    /// In the standard layout the output directory does not lie within the
    /// generate root.
    pub proof fn law_standard_layout_keeps_output_apart()
        ensures
            !within(LayoutModel::standard().generate_root, LayoutModel::standard().output_root),
            forall|i: int|
                0 <= i < LayoutModel::standard().extension.len()
                    ==> LayoutModel::standard().extension[i] != '/',
    {
        reveal_strlit("./generate");
        reveal_strlit("./out");
        reveal_strlit("dll");
    }

    /// Modules with different names are kept at different final paths.
    pub proof fn law_distinct_names_distinct_final_paths(self, a: Seq<char>, b: Seq<char>)
        requires
            a != b,
        ensures
            self.final_path(a) != self.final_path(b),
    {
        let pa = self.final_path(a);
        let pb = self.final_path(b);
        if pa == pb {
            let k = self.output_root.len() as int + 1;
            assert(pa.len() == k + a.len() + 1 + self.extension.len());
            assert(pb.len() == k + b.len() + 1 + self.extension.len());
            assert forall|i: int| 0 <= i < a.len() implies a[i] == b[i] by {
                assert(pa[k + i] == a[i]);
                assert(pb[k + i] == b[i]);
            }
            assert(a =~= b);
        }
    }

    /// Every path of a workspace, and the place where the toolchain leaves
    /// the library, lies within the workspace root.
    pub proof fn law_workspace_holds_its_paths(self, request: RequestModel)
        ensures
            ({
                let workspace = self.workspace(request);
                let root = workspace.root_path;
                &&& root == self.workspace_root(request)
                &&& within(self.generate_root, root)
                &&& within(root, workspace.source_tree_path)
                &&& within(root, workspace.manifest_path)
                &&& within(root, workspace.source_path)
                &&& within(root, self.artifact(request).transient_path)
            }),
    {
        let workspace = self.workspace(request);
        let root = workspace.root_path;
        lemma_within_entry(self.generate_root, workspace_dir(request.name, request.build_id));
        lemma_within_entry(root, "src"@);
        lemma_within_entry(root, "Cargo.toml"@);
        lemma_within_entry(workspace.source_tree_path, "lib.rs"@);
        lemma_within_join(root, "src"@, workspace.source_path);
        let target = join(root, "target"@);
        let release = join(target, "release"@);
        lemma_within_entry(release, library_file(request.name, self.extension));
        lemma_within_join(target, "release"@, self.artifact(request).transient_path);
        lemma_within_join(root, "target"@, self.artifact(request).transient_path);
    }

    /// The workspaces of two different build attempts share no path: nothing
    /// lies within both roots, so neither build can touch the other's source
    /// tree.
    pub proof fn law_workspaces_disjoint(self, a: RequestModel, b: RequestModel, path: Seq<char>)
        requires
            a.wf(),
            b.wf(),
            !same_attempt(a, b),
        ensures
            !(within(self.workspace_root(a), path) && within(self.workspace_root(b), path)),
    {
        let ra = self.workspace_root(a);
        let rb = self.workspace_root(b);
        let da = workspace_dir(a.name, a.build_id);
        let db = workspace_dir(b.name, b.build_id);
        let k = self.generate_root.len() as int + 1;
        lemma_workspace_dir(a, b);
        lemma_workspace_dir(b, a);
        if within(ra, path) && within(rb, path) {
            assert(ra =~= path.subrange(0, ra.len() as int));
            assert(rb =~= path.subrange(0, rb.len() as int));
            if da.len() < db.len() {
                assert(path[ra.len() as int] == rb[ra.len() as int]);
                assert(rb[k + da.len()] == db[da.len() as int]);
                assert(false);
            }
            if db.len() < da.len() {
                assert(path[rb.len() as int] == ra[rb.len() as int]);
                assert(ra[k + db.len()] == da[db.len() as int]);
                assert(false);
            }
            assert(da =~= db) by {
                assert forall|i: int| 0 <= i < da.len() implies da[i] == db[i] by {
                    assert(ra[k + i] == da[i]);
                    assert(rb[k + i] == db[i]);
                    assert(path[k + i] == ra[k + i]);
                    assert(path[k + i] == rb[k + i]);
                }
            }
            assert(false);
        }
    }
}

} // verus!
