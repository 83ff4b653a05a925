//! Absolute filesystem paths, modelled as their component names.
//!
//! The wrapper's path logic — is the working directory inside the project,
//! which ancestor carries the project marker, what is the path of a file
//! relative to the project root — is ordinary sequence logic once a path is a
//! sequence of components, so that is how the library holds paths.  The
//! unverified boundary converts to and from the platform's path type.
use crate::bytes::bytes_eq;
use crate::bytes::push_all;
use vstd::prelude::*;

verus! {

/// An absolute path: the component names from the filesystem root down.
/// The root directory itself is the empty sequence of components.
#[derive(Debug)]
pub struct AbsPath {
    pub components: Vec<Vec<u8>>,
}

impl View for AbsPath {
    type V = Seq<Seq<u8>>;

    open spec fn view(&self) -> Seq<Seq<u8>> {
        self.components@.map_values(|c: Vec<u8>| c@)
    }
}

impl AbsPath {
    /// A component never holds a separator and is never empty.
    pub open spec fn wf(&self) -> bool {
        forall|i: int|
            0 <= i < self@.len() ==> self@[i].len() > 0 && !self@[i].contains(0x2f as u8)
    }

    pub fn push_component(&mut self, c: Vec<u8>)
        ensures
            final(self)@ =~= old(self)@.push(c@),
    {
        self.components.push(c);
    }

    pub fn dup(&self) -> (r: AbsPath)
        ensures
            r@ == self@,
    {
        let mut components: Vec<Vec<u8>> = Vec::new();
        let mut i: usize = 0;
        while i < self.components.len()
            invariant
                i <= self.components@.len(),
                components@.len() == i,
                forall|j: int| 0 <= j < i ==> components@[j]@ == self.components@[j]@,
            decreases self.components@.len() - i,
        {
            let mut c: Vec<u8> = Vec::new();
            push_all(&mut c, &self.components[i]);
            proof {
                assert(c@ =~= self.components@[i as int]@);
            }
            components.push(c);
            i += 1;
        }
        let r = AbsPath { components };
        assert(r@ =~= self@);
        r
    }

    /// The ancestor `steps_up` levels above this path (0 is the path itself).
    pub fn ancestor_at(&self, steps_up: usize) -> (r: AbsPath)
        requires
            steps_up <= self@.len(),
        ensures
            r@ =~= self@.take(self@.len() - steps_up as int),
    {
        let keep = self.components.len() - steps_up;
        let mut components: Vec<Vec<u8>> = Vec::new();
        let mut i: usize = 0;
        while i < keep
            invariant
                i <= keep <= self.components@.len(),
                components@.len() == i,
                forall|j: int| 0 <= j < i ==> components@[j]@ == self.components@[j]@,
            decreases keep - i,
        {
            let mut c: Vec<u8> = Vec::new();
            push_all(&mut c, &self.components[i]);
            proof {
                assert(c@ =~= self.components@[i as int]@);
            }
            components.push(c);
            i += 1;
        }
        let r = AbsPath { components };
        assert(r@ =~= self@.take(self@.len() - steps_up as int));
        r
    }
}

/// `cwd` is `root` itself or one of its descendants.
pub open spec fn is_within(root: Seq<Seq<u8>>, cwd: Seq<Seq<u8>>) -> bool {
    root.len() <= cwd.len() && cwd.take(root.len() as int) == root
}

/// Containment guard: the working directory must equal the project root or
/// lie below it.  Siblings, unrelated paths and ancestors of the root all
/// fail.
pub fn check_within(root: &AbsPath, cwd: &AbsPath) -> (r: bool)
    ensures
        r == is_within(root@, cwd@),
{
    if cwd.components.len() < root.components.len() {
        assert(!is_within(root@, cwd@));
        return false;
    }
    let mut i: usize = 0;
    while i < root.components.len()
        invariant
            i <= root@.len() <= cwd@.len(),
            forall|j: int| 0 <= j < i ==> cwd@[j] == root@[j],
        decreases root@.len() - i,
    {
        if !bytes_eq(&root.components[i], &cwd.components[i]) {
            assert(cwd@.take(root@.len() as int)[i as int] != root@[i as int]);
            return false;
        }
        i += 1;
    }
    assert(cwd@.take(root@.len() as int) =~= root@);
    true
}

/// Law: containment is antisymmetric — two directories each inside the other
/// are the same directory.  In particular a proper ancestor of the project
/// root is never accepted as a working directory.
pub proof fn lemma_within_antisymmetric(a: Seq<Seq<u8>>, b: Seq<Seq<u8>>)
    requires
        is_within(a, b),
        is_within(b, a),
    ensures
        a == b,
{
    assert(a =~= b.take(a.len() as int));
    assert(b.take(a.len() as int) =~= b);
}

/// The components of `cwd` below `root`.
pub fn rel_components(root: &AbsPath, cwd: &AbsPath) -> (r: Vec<Vec<u8>>)
    requires
        is_within(root@, cwd@),
    ensures
        r@.map_values(|c: Vec<u8>| c@) =~= cwd@.skip(root@.len() as int),
{
    let mut r: Vec<Vec<u8>> = Vec::new();
    let mut i: usize = root.components.len();
    while i < cwd.components.len()
        invariant
            root@.len() <= i <= cwd@.len(),
            r@.len() == i - root@.len(),
            forall|j: int| 0 <= j < r@.len() ==> r@[j]@ == cwd.components@[root@.len() + j]@,
        decreases cwd@.len() - i,
    {
        let mut c: Vec<u8> = Vec::new();
        push_all(&mut c, &cwd.components[i]);
        proof {
            assert(c@ =~= cwd.components@[i as int]@);
        }
        r.push(c);
        i += 1;
    }
    assert(r@.map_values(|c: Vec<u8>| c@) =~= cwd@.skip(root@.len() as int));
    r
}

/// The nearest ancestor of `cwd` (inclusive; index 0 is `cwd` itself, the
/// last index is the filesystem root) whose mark is set.  The caller supplies
/// one mark per ancestor, saying whether the project marker file exists
/// there.
pub fn nearest_marked_ancestor(cwd: &AbsPath, marked: &Vec<bool>) -> (r: Option<AbsPath>)
    requires
        marked@.len() == cwd@.len() + 1,
    ensures
        match r {
            Some(p) => exists|i: int|
                0 <= i < marked@.len() && marked@[i] && (forall|j: int| 0 <= j < i ==> !marked@[j])
                    && p@ =~= cwd@.take(cwd@.len() - i),
            None => forall|j: int| 0 <= j < marked@.len() ==> !marked@[j],
        },
{
    let mut i: usize = 0;
    while i < marked.len()
        invariant
            i <= marked@.len(),
            marked@.len() == cwd@.len() + 1,
            forall|j: int| 0 <= j < i ==> !marked@[j],
        decreases marked@.len() - i,
    {
        if marked[i] {
            let p = cwd.ancestor_at(i);
            return Some(p);
        }
        i += 1;
    }
    None
}

/// The bytes `"/a/b"` for components `[a, b]`: each component prefixed by a
/// separator.  Empty for the root directory.
pub open spec fn slash_join(p: Seq<Seq<u8>>) -> Seq<u8>
    decreases p.len(),
{
    if p.len() == 0 {
        Seq::<u8>::empty()
    } else {
        seq![0x2f as u8] + p[0] + slash_join(p.skip(1))
    }
}

/// How an absolute path is written out: `"/"` for the root directory, the
/// slash-joined components otherwise.
pub open spec fn display_of(p: Seq<Seq<u8>>) -> Seq<u8> {
    if p.len() == 0 {
        seq![0x2f as u8]
    } else {
        slash_join(p)
    }
}

fn slash_join_from(components: &Vec<Vec<u8>>, from: usize) -> (r: Vec<u8>)
    requires
        from <= components@.len(),
    ensures
        r@ =~= slash_join(components@.map_values(|c: Vec<u8>| c@).skip(from as int)),
    decreases components@.len() - from,
{
    let ghost tail = components@.map_values(|c: Vec<u8>| c@).skip(from as int);
    if from == components.len() {
        assert(tail.len() == 0);
        Vec::new()
    } else {
        let mut r: Vec<u8> = Vec::new();
        r.push(0x2f);
        push_all(&mut r, &components[from]);
        let rest = slash_join_from(components, from + 1);
        push_all(&mut r, &rest);
        proof {
            assert(tail[0] == components@.map_values(|c: Vec<u8>| c@)[from as int]);
            assert(tail.skip(1) =~= components@.map_values(|c: Vec<u8>| c@).skip(from + 1 as int));
            assert(r@ =~= seq![0x2f as u8] + tail[0] + slash_join(tail.skip(1)));
        }
        r
    }
}

/// Render an absolute path as bytes.
pub fn display_path(p: &AbsPath) -> (r: Vec<u8>)
    ensures
        r@ =~= display_of(p@),
{
    if p.components.len() == 0 {
        let mut r: Vec<u8> = Vec::new();
        r.push(0x2f);
        assert(r@ =~= display_of(p@));
        r
    } else {
        let r = slash_join_from(&p.components, 0);
        assert(p@.skip(0) =~= p@);
        r
    }
}

/// The bytes `"a/b"` for components `[a, b]`: separators only between
/// components, as a relative path is written.  Empty for no components.
pub open spec fn rel_display_of(p: Seq<Seq<u8>>) -> Seq<u8> {
    if p.len() == 0 {
        Seq::<u8>::empty()
    } else {
        p[0] + slash_join(p.skip(1))
    }
}

/// Render a relative path (a component list) as bytes.
pub fn display_rel(components: &Vec<Vec<u8>>) -> (r: Vec<u8>)
    ensures
        r@ =~= rel_display_of(components@.map_values(|c: Vec<u8>| c@)),
{
    let ghost v = components@.map_values(|c: Vec<u8>| c@);
    if components.len() == 0 {
        Vec::new()
    } else {
        let mut r: Vec<u8> = Vec::new();
        push_all(&mut r, &components[0]);
        let rest = slash_join_from(components, 1);
        push_all(&mut r, &rest);
        proof {
            assert(v[0] == components@[0]@);
            assert(r@ =~= v[0] + slash_join(v.skip(1)));
        }
        r
    }
}

} // verus!
