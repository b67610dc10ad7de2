//! Paths as sequences of components, and the translation of a path under the
//! asset store's root into a path under the game's virtual filesystem root.
use std::path::Component;
use vstd::prelude::*;

verus! {

/// One component of a path, with its text held as a plain string.
#[derive(Debug)]
pub enum PathComponent {
    /// A platform prefix such as a drive letter.
    Prefix(String),
    /// The root directory, `/`.
    RootDir,
    /// A leading `.`.
    CurDir,
    /// A `..`.
    ParentDir,
    /// A file or directory name.
    Normal(String),
}

/// What a component is, with its text as a sequence of characters.
pub enum PartView {
    Prefix(Seq<char>),
    RootDir,
    CurDir,
    ParentDir,
    Normal(Seq<char>),
}

impl View for PathComponent {
    type V = PartView;

    open spec fn view(&self) -> PartView {
        match self {
            PathComponent::Prefix(s) => PartView::Prefix(s@),
            PathComponent::RootDir => PartView::RootDir,
            PathComponent::CurDir => PartView::CurDir,
            PathComponent::ParentDir => PartView::ParentDir,
            PathComponent::Normal(s) => PartView::Normal(s@),
        }
    }
}

/// A path, held as the list of its components.
#[derive(Debug)]
pub struct AssetPath {
    pub components: Vec<PathComponent>,
}

impl View for AssetPath {
    type V = Seq<PartView>;

    open spec fn view(&self) -> Seq<PartView> {
        self.components@.map_values(|c: PathComponent| c@)
    }
}

/// The components of a path written as `text`.
pub uninterp spec fn path_parts(text: Seq<char>) -> Seq<PartView>;

/// `root` is a leading run of the components of `path`.
pub open spec fn is_prefix_of(root: Seq<PartView>, path: Seq<PartView>) -> bool {
    root.len() <= path.len() && path.subrange(0, root.len() as int) == root
}

/// The path is absolute by its own first component: joining it onto
/// another path replaces that path.
pub open spec fn replaces_base(parts: Seq<PartView>) -> bool {
    parts.len() > 0 && (parts[0] is RootDir || parts[0] is Prefix)
}

/// `rest` joined onto the root directory `/`.
pub open spec fn under_vfs_root(rest: Seq<PartView>) -> Seq<PartView> {
    if replaces_base(rest) {
        rest
    } else {
        seq![PartView::RootDir].add(rest)
    }
}

/// The path that `path` names relative to the asset store's root `root`,
/// written as an absolute path of the virtual filesystem.
pub open spec fn vfs_path_of(path: Seq<PartView>, root: Seq<PartView>) -> Seq<PartView> {
    under_vfs_root(path.skip(root.len() as int))
}

/// A path under the store's root is rebuilt from the root and its virtual
/// filesystem path: when what follows the root is relative, the virtual path
/// is `/` followed by it, and the root followed by that part is the path.
pub proof fn lemma_vfs_path_rebuilds(path: Seq<PartView>, root: Seq<PartView>)
    requires
        is_prefix_of(root, path),
        !replaces_base(path.skip(root.len() as int)),
    ensures
        vfs_path_of(path, root).len() == path.len() - root.len() + 1,
        vfs_path_of(path, root)[0] == PartView::RootDir,
        root + vfs_path_of(path, root).skip(1) == path,
{
    let v = vfs_path_of(path, root);
    assert(v.skip(1) =~= path.skip(root.len() as int));
    assert(root + v.skip(1) =~= path);
}

/// The text of one component.
pub open spec fn part_text(p: PartView) -> Seq<char> {
    match p {
        PartView::Prefix(s) => s,
        PartView::RootDir => seq!['/'],
        PartView::CurDir => seq!['.'],
        PartView::ParentDir => seq!['.', '.'],
        PartView::Normal(s) => s,
    }
}

/// A separator follows every component but a root directory or a prefix.
pub open spec fn separator_after(p: PartView) -> Seq<char> {
    match p {
        PartView::Prefix(_) => Seq::empty(),
        PartView::RootDir => Seq::empty(),
        _ => seq!['/'],
    }
}

/// The text of a path: its components, separated by `/`.
pub open spec fn path_text(parts: Seq<PartView>) -> Seq<char>
    decreases parts.len(),
{
    if parts.len() == 0 {
        Seq::empty()
    } else if parts.len() == 1 {
        part_text(parts[0])
    } else {
        let init = parts.drop_last();
        path_text(init) + separator_after(init.last()) + part_text(parts.last())
    }
}

/// Relies on std::path::Path::components: it splits a path's text into
/// components, and what it returns depends on that text alone.
#[verifier::external_body]
fn split_components(text: &str) -> (r: Vec<PathComponent>)
    ensures
        r@.map_values(|c: PathComponent| c@) == path_parts(text@),
{
    std::path::Path::new(text).components().map(|c| match c {
        Component::Prefix(p) => PathComponent::Prefix(p.as_os_str().to_string_lossy().into_owned()),
        Component::RootDir => PathComponent::RootDir,
        Component::CurDir => PathComponent::CurDir,
        Component::ParentDir => PathComponent::ParentDir,
        Component::Normal(n) => PathComponent::Normal(n.to_string_lossy().into_owned()),
    }).collect()
}

impl PathComponent {
    /// A copy of this component.
    pub fn duplicate(&self) -> (r: PathComponent)
        ensures
            r@ == self@,
    {
        match self {
            PathComponent::Prefix(s) => PathComponent::Prefix(s.clone()),
            PathComponent::RootDir => PathComponent::RootDir,
            PathComponent::CurDir => PathComponent::CurDir,
            PathComponent::ParentDir => PathComponent::ParentDir,
            PathComponent::Normal(s) => PathComponent::Normal(s.clone()),
        }
    }

    /// Whether two components are the same.
    pub fn same_as(&self, other: &PathComponent) -> (r: bool)
        ensures
            r == (self@ == other@),
    {
        match (self, other) {
            (PathComponent::Prefix(a), PathComponent::Prefix(b)) => a.eq(b),
            (PathComponent::RootDir, PathComponent::RootDir) => true,
            (PathComponent::CurDir, PathComponent::CurDir) => true,
            (PathComponent::ParentDir, PathComponent::ParentDir) => true,
            (PathComponent::Normal(a), PathComponent::Normal(b)) => a.eq(b),
            _ => false,
        }
    }

    /// Whether joining a path that starts with this component onto another
    /// path replaces that path.
    pub fn replaces_base(&self) -> (r: bool)
        ensures
            r == (self@ is RootDir || self@ is Prefix),
    {
        match self {
            PathComponent::Prefix(_) => true,
            PathComponent::RootDir => true,
            _ => false,
        }
    }
}

impl AssetPath {
    /// The path written as `text`, split into its components.
    pub fn parse(text: &str) -> (r: AssetPath)
        ensures
            r@ == path_parts(text@),
    {
        AssetPath { components: split_components(text) }
    }

    /// The components of `self` from index `start` on, as a path.
    pub fn suffix_from(&self, start: usize) -> (r: AssetPath)
        requires
            start <= self@.len(),
        ensures
            r@ == self@.skip(start as int),
    {
        let mut out: Vec<PathComponent> = Vec::new();
        let mut i: usize = start;
        while i < self.components.len()
            invariant
                start <= i <= self.components@.len(),
                out@.map_values(|c: PathComponent| c@) == self@.subrange(start as int, i as int),
            decreases self.components@.len() - i,
        {
            let c = self.components[i].duplicate();
            let ghost before = out@;
            out.push(c);
            assert(out@ == before.push(c));
            assert(self@[i as int] == self.components@[i as int]@);
            assert(out@.map_values(|c: PathComponent| c@) =~= before.map_values(|c: PathComponent| c@).push(c@));
            assert(self@.subrange(start as int, i + 1) =~= self@.subrange(start as int, i as int).push(self@[i as int]));
            i = i + 1;
        }
        let r = AssetPath { components: out };
        assert(r@ =~= self@.skip(start as int));
        r
    }

    /// Whether the components of `root` lead the components of `self`.
    pub fn starts_with(&self, root: &AssetPath) -> (r: bool)
        ensures
            r == is_prefix_of(root@, self@),
    {
        let n = root.components.len();
        if n > self.components.len() {
            return false;
        }
        let mut i: usize = 0;
        while i < n
            invariant
                n == root@.len(),
                n <= self@.len(),
                i <= n,
                self@.subrange(0, i as int) == root@.subrange(0, i as int),
            decreases n - i,
        {
            if !self.components[i].same_as(&root.components[i]) {
                assert(self@.subrange(0, n as int)[i as int] != root@[i as int]);
                return false;
            }
            i = i + 1;
            assert(self@.subrange(0, i as int) =~= root@.subrange(0, i as int));
        }
        assert(root@.subrange(0, n as int) =~= root@);
        true
    }

    /// The path that is left of `self` once the components of `root` are
    /// taken off its front; `None` when `self` does not start with `root`.
    pub fn strip_prefix(&self, root: &AssetPath) -> (r: Option<AssetPath>)
        ensures
            r is Some <==> is_prefix_of(root@, self@),
            r matches Some(rest) ==> rest@ == self@.skip(root@.len() as int),
    {
        if self.starts_with(root) {
            Some(self.suffix_from(root.components.len()))
        } else {
            None
        }
    }

    /// This path joined onto the root directory `/`: the path itself if it
    /// is absolute by its first component, else `/` followed by it.
    pub fn under_vfs_root(self) -> (r: AssetPath)
        ensures
            r@ == under_vfs_root(self@),
    {
        if self.components.len() > 0 && self.components[0].replaces_base() {
            self
        } else {
            let mut out: Vec<PathComponent> = Vec::new();
            out.push(PathComponent::RootDir);
            let mut rest = self.components;
            out.append(&mut rest);
            let r = AssetPath { components: out };
            assert(r@ =~= seq![PartView::RootDir].add(self@));
            r
        }
    }

    /// The text of this path, its components separated by `/`.
    pub fn to_path_string(&self) -> (r: String)
        ensures
            r@ == path_text(self@),
    {
        let mut out = String::new();
        let mut i: usize = 0;
        while i < self.components.len()
            invariant
                i <= self.components@.len(),
                out@ == path_text(self@.subrange(0, i as int)),
            decreases self.components@.len() - i,
        {
            let ghost before = self@.subrange(0, i as int);
            if i > 0 {
                let sep = separator_text(&self.components[i - 1]);
                out.append(sep);
            }
            let text = component_text(&self.components[i]);
            out.append(text);
            proof {
                let now = self@.subrange(0, i + 1);
                assert(now.drop_last() =~= before);
                if i > 0 {
                    assert(before.last() == self@[i - 1]);
                } else {
                    assert(before =~= Seq::<PartView>::empty());
                }
            }
            i = i + 1;
        }
        assert(self@.subrange(0, self@.len() as int) =~= self@);
        out
    }
}

/// The text of one component.
fn component_text(c: &PathComponent) -> (r: &str)
    ensures
        r@ == part_text(c@),
{
    match c {
        PathComponent::Prefix(s) => s.as_str(),
        PathComponent::RootDir => {
            proof {
                reveal_strlit("/");
            }
            "/"
        },
        PathComponent::CurDir => {
            proof {
                reveal_strlit(".");
            }
            "."
        },
        PathComponent::ParentDir => {
            proof {
                reveal_strlit("..");
            }
            ".."
        },
        PathComponent::Normal(s) => s.as_str(),
    }
}

/// The separator that follows a component in a path's text.
fn separator_text(c: &PathComponent) -> (r: &'static str)
    ensures
        r@ == separator_after(c@),
{
    proof {
        reveal_strlit("");
        reveal_strlit("/");
    }
    match c {
        PathComponent::Prefix(_) => "",
        PathComponent::RootDir => "",
        _ => "/",
    }
}

/// Turns a path that the asset store hands out, which lies under the store's
/// root, into the absolute path of the virtual filesystem that names the same
/// file: the store's root is taken off its front and `/` put in its place.
pub fn warmy_to_ggez_path(path: &AssetPath, root: &AssetPath) -> (r: AssetPath)
    requires
        is_prefix_of(root@, path@),
    ensures
        r@ == vfs_path_of(path@, root@),
{
    let rest = path.suffix_from(root.components.len());
    rest.under_vfs_root()
}

} // verus!
