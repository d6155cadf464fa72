//! Lexical path arithmetic: paths are text, components are what stands
//! between `/` separators, and nothing here ever looks at a file system.

use vstd::prelude::*;
use vstd::string::*;
use crate::text::{lemma_texts_push, push_char, split_on, split_text, texts};

verus! {

/// The component that names the directory itself.
pub open spec fn cur_dir() -> Seq<char> {
    seq!['.']
}

/// The component that names the parent directory.
pub open spec fn parent_dir() -> Seq<char> {
    seq!['.', '.']
}

/// The components left after one more piece: empty pieces and `.` change
/// nothing, `..` removes the last component if there is one, and any other
/// piece is a new last component.
pub open spec fn resolve_step(stack: Seq<Seq<char>>, piece: Seq<char>) -> Seq<Seq<char>> {
    if piece.len() == 0 || piece == cur_dir() {
        stack
    } else if piece == parent_dir() {
        if stack.len() > 0 {
            stack.drop_last()
        } else {
            stack
        }
    } else {
        stack.push(piece)
    }
}

/// The components that a list of pieces comes down to, read left to right.
pub open spec fn resolve(pieces: Seq<Seq<char>>) -> Seq<Seq<char>>
    decreases pieces.len(),
{
    if pieces.len() == 0 {
        Seq::empty()
    } else {
        resolve_step(resolve(pieces.drop_last()), pieces.last())
    }
}

/// Whether a path starts at the root.
pub open spec fn is_absolute(path: Seq<char>) -> bool {
    path.len() > 0 && path[0] == '/'
}

/// `path` itself when it is absolute, else `path` below `cwd`.
pub open spec fn absolutize(path: Seq<char>, cwd: Seq<char>) -> Seq<char> {
    if is_absolute(path) {
        path
    } else {
        cwd + seq!['/'] + path
    }
}

/// The mathematical content of a [`NormalizedPath`].
pub struct NormalizedPathView {
    pub absolute: bool,
    pub parts: Seq<Seq<char>>,
}

/// The normal form of `path` taken relative to `cwd`: made absolute against
/// `cwd` if it is relative, then freed of empty pieces, `.` and `..`.
pub open spec fn normalized(path: Seq<char>, cwd: Seq<char>) -> NormalizedPathView {
    let full = absolutize(path, cwd);
    NormalizedPathView { absolute: is_absolute(full), parts: resolve(split_on(full, '/')) }
}

/// Whether `path` lies at or below `root`, component by component.
pub open spec fn path_starts_with(path: NormalizedPathView, root: NormalizedPathView) -> bool {
    &&& path.absolute == root.absolute
    &&& root.parts.len() <= path.parts.len()
    &&& path.parts.take(root.parts.len() as int) == root.parts
}

/// A path in normal form: whether it starts at the root, and its components.
#[derive(Clone, Debug, PartialEq, Eq)]
pub struct NormalizedPath {
    pub absolute: bool,
    pub parts: Vec<String>,
}

impl View for NormalizedPath {
    type V = NormalizedPathView;

    open spec fn view(&self) -> NormalizedPathView {
        NormalizedPathView { absolute: self.absolute, parts: texts(self.parts@) }
    }
}

/// Cuts a path at every `/`.
pub fn split_segments(s: &str) -> (r: Vec<String>)
    ensures
        texts(r@) == split_on(s@, '/'),
{
    split_text(s, '/')
}

/// Reduces a list of pieces to components.
pub fn resolve_segments(pieces: &Vec<String>) -> (r: Vec<String>)
    ensures
        texts(r@) == resolve(texts(pieces@)),
{
    let mut stack: Vec<String> = Vec::new();
    let mut i: usize = 0;
    while i < pieces.len()
        invariant
            i <= pieces.len(),
            texts(stack@) == resolve(texts(pieces@.take(i as int))),
        decreases pieces.len() - i,
    {
        let piece = &pieces[i];
        proof {
            reveal_strlit(".");
            reveal_strlit("..");
            assert("."@ == cur_dir());
            assert(".."@ == parent_dir());
            let now = pieces@.take(i as int + 1);
            assert(now == pieces@.take(i as int).push(pieces@[i as int]));
            lemma_texts_push(pieces@.take(i as int), pieces@[i as int]);
            assert(texts(now).drop_last() == texts(pieces@.take(i as int)));
            assert(texts(now).last() == piece@);
        }
        if piece.as_str().unicode_len() == 0 || crate::text::str_eq(piece.as_str(), ".") {
        } else if crate::text::str_eq(piece.as_str(), "..") {
            if stack.len() > 0 {
                proof {
                    assert(texts(stack@.drop_last()) == texts(stack@).drop_last());
                }
                stack.pop();
            }
        } else {
            let copy = piece.clone();
            proof {
                lemma_texts_push(stack@, copy);
            }
            stack.push(copy);
        }
        i = i + 1;
    }
    proof {
        assert(pieces@.take(pieces.len() as int) == pieces@);
    }
    stack
}

/// Whether a path starts at the root.
pub fn starts_at_root(path: &str) -> (r: bool)
    ensures
        r == is_absolute(path@),
{
    path.unicode_len() > 0 && path.get_char(0) == '/'
}

/// Brings a path into normal form, relative paths taken below `cwd`. Purely
/// lexical: `..` removes the component before it whether or not that is a
/// symbolic link, and stays at the root where there is nothing to remove.
pub fn normalize_lexically(path: &str, cwd: &str) -> (r: NormalizedPath)
    ensures
        r@ == normalized(path@, cwd@),
{
    if starts_at_root(path) {
        let pieces = split_segments(path);
        NormalizedPath { absolute: true, parts: resolve_segments(&pieces) }
    } else {
        let mut full = cwd.to_owned();
        push_char(&mut full, '/');
        full.append(path);
        proof {
            assert(full@ == cwd@ + seq!['/'] + path@);
        }
        let absolute = starts_at_root(full.as_str());
        let pieces = split_segments(full.as_str());
        NormalizedPath { absolute, parts: resolve_segments(&pieces) }
    }
}

impl NormalizedPath {
    /// Whether this path lies at or below `root`.
    pub fn starts_with(&self, root: &NormalizedPath) -> (r: bool)
        ensures
            r == path_starts_with(self@, root@),
    {
        if self.absolute != root.absolute || root.parts.len() > self.parts.len() {
            return false;
        }
        let mut i: usize = 0;
        while i < root.parts.len()
            invariant
                i <= root.parts.len(),
                root.parts.len() <= self.parts.len(),
                texts(self.parts@).take(i as int) == texts(root.parts@).take(i as int),
            decreases root.parts.len() - i,
        {
            if !crate::text::str_eq(self.parts[i].as_str(), root.parts[i].as_str()) {
                proof {
                    let n = root.parts.len() as int;
                    assert(texts(self.parts@).take(n)[i as int] == self.parts@[i as int]@);
                    assert(texts(root.parts@)[i as int] == root.parts@[i as int]@);
                }
                return false;
            }
            proof {
                let a = texts(self.parts@);
                let b = texts(root.parts@);
                assert(a.take(i as int + 1) == a.take(i as int).push(a[i as int]));
                assert(b.take(i as int + 1) == b.take(i as int).push(b[i as int]));
            }
            i = i + 1;
        }
        proof {
            let b = texts(root.parts@);
            assert(b.take(b.len() as int) == b);
        }
        true
    }
}

/// The pieces of a path that count as its components when two paths are
/// compared as they stand: empty pieces do not, and `.` does only at the
/// very start.
pub open spec fn counted_pieces(pieces: Seq<Seq<char>>) -> Seq<Seq<char>>
    decreases pieces.len(),
{
    if pieces.len() == 0 {
        Seq::empty()
    } else {
        let before = counted_pieces(pieces.drop_last());
        let piece = pieces.last();
        if piece.len() == 0 || (piece == cur_dir() && pieces.len() > 1) {
            before
        } else {
            before.push(piece)
        }
    }
}

/// Whether two paths name the same place as they stand: both start at the
/// root or neither does, and their components are the same. Repeated and
/// trailing separators make no difference, nor does `.` inside a path;
/// `..` is a component like any other.
pub open spec fn same_path(a: Seq<char>, b: Seq<char>) -> bool {
    &&& is_absolute(a) == is_absolute(b)
    &&& counted_pieces(split_on(a, '/')) == counted_pieces(split_on(b, '/'))
}

/// The components of a path as they count in a comparison.
pub fn path_components(path: &str) -> (r: Vec<String>)
    ensures
        texts(r@) == counted_pieces(split_on(path@, '/')),
{
    let pieces = split_text(path, '/');
    let mut out: Vec<String> = Vec::new();
    let mut i: usize = 0;
    while i < pieces.len()
        invariant
            i <= pieces.len(),
            texts(out@) == counted_pieces(texts(pieces@).take(i as int)),
        decreases pieces.len() - i,
    {
        let piece = &pieces[i];
        proof {
            reveal_strlit(".");
            assert("."@ == cur_dir());
            let all = texts(pieces@);
            assert(all.take(i as int + 1).drop_last() == all.take(i as int));
            assert(all.take(i as int + 1).last() == piece@);
        }
        let skipped = piece.as_str().unicode_len() == 0 || (i > 0 && crate::text::str_eq(
            piece.as_str(),
            ".",
        ));
        if !skipped {
            let copy = piece.clone();
            proof {
                lemma_texts_push(out@, copy);
            }
            out.push(copy);
        }
        i = i + 1;
    }
    proof {
        assert(texts(pieces@).take(pieces.len() as int) == texts(pieces@));
    }
    out
}

/// Whether two lists hold the same texts.
pub fn same_texts(a: &Vec<String>, b: &Vec<String>) -> (r: bool)
    ensures
        r == (texts(a@) == texts(b@)),
{
    if a.len() != b.len() {
        proof {
            assert(texts(a@).len() != texts(b@).len());
        }
        return false;
    }
    let mut i: usize = 0;
    while i < a.len()
        invariant
            i <= a.len(),
            a.len() == b.len(),
            forall|k: int| 0 <= k < i ==> a@[k]@ == b@[k]@,
        decreases a.len() - i,
    {
        if !crate::text::str_eq(a[i].as_str(), b[i].as_str()) {
            proof {
                assert(texts(a@)[i as int] == a@[i as int]@);
                assert(texts(b@)[i as int] == b@[i as int]@);
            }
            return false;
        }
        i = i + 1;
    }
    proof {
        assert(texts(a@) =~= texts(b@));
    }
    true
}

/// Compares two paths as they stand.
pub fn is_same_path(a: &str, b: &str) -> (r: bool)
    ensures
        r == same_path(a@, b@),
{
    if starts_at_root(a) != starts_at_root(b) {
        return false;
    }
    let left = path_components(a);
    let right = path_components(b);
    same_texts(&left, &right)
}

/// The normal form never holds an empty component, `.` or `..`.
pub proof fn lemma_resolve_is_clean(pieces: Seq<Seq<char>>)
    ensures
        forall|i: int|
            0 <= i < resolve(pieces).len() ==> {
                let part = #[trigger] resolve(pieces)[i];
                part.len() > 0 && part != cur_dir() && part != parent_dir()
            },
    decreases pieces.len(),
{
    if pieces.len() > 0 {
        lemma_resolve_is_clean(pieces.drop_last());
        let before = resolve(pieces.drop_last());
        let piece = pieces.last();
        assert forall|i: int| 0 <= i < resolve(pieces).len() implies {
            let part = #[trigger] resolve(pieces)[i];
            part.len() > 0 && part != cur_dir() && part != parent_dir()
        } by {
            if piece.len() == 0 || piece == cur_dir() {
            } else if piece == parent_dir() {
                if before.len() > 0 {
                    assert(resolve(pieces)[i] == before[i]);
                }
            } else {
                if i < before.len() {
                    assert(resolve(pieces)[i] == before[i]);
                }
            }
        }
    }
}

/// Every path lies at or below itself, and containment carries over from a
/// root to everything below what lies below it.
pub proof fn lemma_starts_with_is_an_order(
    a: NormalizedPathView,
    b: NormalizedPathView,
    c: NormalizedPathView,
)
    ensures
        path_starts_with(a, a),
        path_starts_with(a, b) && path_starts_with(b, c) ==> path_starts_with(a, c),
{
    assert(a.parts.take(a.parts.len() as int) == a.parts);
    if path_starts_with(a, b) && path_starts_with(b, c) {
        assert(a.parts.take(c.parts.len() as int) == a.parts.take(b.parts.len() as int).take(
            c.parts.len() as int,
        ));
    }
}

} // verus!
