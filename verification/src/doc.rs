//! The profile document model and the generic path resolver.
//!
//! A profile's structured definition is a tree of named elements. The
//! resolver descends from the root's children, taking at each level the first
//! direct child whose name equals the current path segment, and returns the
//! text content of the element matched at the last segment. A missing match
//! at any level is an expected `None`, not an error.

use vstd::prelude::*;

verus! {

/// One element of a profile document: its name, its text content, and its
/// child elements in document order.
pub struct Node {
    pub name: String,
    pub text: String,
    pub children: Vec<Node>,
}

/// The first direct child with the given name, in document order.
pub open spec fn find_child(children: Seq<Node>, name: Seq<char>) -> Option<Node>
    decreases children.len(),
{
    if children.len() == 0 {
        None
    } else if children[0].name@ == name {
        Some(children[0])
    } else {
        find_child(children.drop_first(), name)
    }
}

/// Greedy single descent through a sibling set: at each level the first
/// name match is taken; the text of the element matched at the last segment
/// is the result. An empty path resolves to nothing.
pub open spec fn resolve_path(children: Seq<Node>, path: Seq<Seq<char>>) -> Option<Seq<char>>
    decreases path.len(),
{
    if path.len() == 0 {
        None
    } else {
        match find_child(children, path[0]) {
            None => None,
            Some(n) => if path.len() == 1 {
                Some(n.text@)
            } else {
                resolve_path(n.children@, path.drop_first())
            },
        }
    }
}

/// The element a path leads to: the node matched at the last path segment,
/// under the same greedy descent as `resolve_path`.
pub open spec fn target_node(children: Seq<Node>, path: Seq<Seq<char>>) -> Option<Node>
    decreases path.len(),
{
    if path.len() == 0 {
        None
    } else {
        match find_child(children, path[0]) {
            None => None,
            Some(n) => if path.len() == 1 {
                Some(n)
            } else {
                target_node(n.children@, path.drop_first())
            },
        }
    }
}

/// Resolution returns exactly the text of the element the path leads to:
/// when the path exists in the document the result is the terminal element's
/// text content and nothing else, and when no element matches at some level
/// the result is `None`.
pub proof fn lemma_resolve_is_target_text(children: Seq<Node>, path: Seq<Seq<char>>)
    ensures
        match target_node(children, path) {
            Some(n) => resolve_path(children, path) == Some(n.text@),
            None => resolve_path(children, path) is None,
        },
    decreases path.len(),
{
    if path.len() == 0 {
    } else {
        match find_child(children, path[0]) {
            None => {},
            Some(n) => {
                if path.len() > 1 {
                    lemma_resolve_is_target_text(n.children@, path.drop_first());
                }
            },
        }
    }
}

/// Skipping children that do not match leaves the first match unchanged.
proof fn lemma_find_child_skip(children: Seq<Node>, name: Seq<char>, i: int)
    requires
        0 <= i <= children.len(),
        forall|j: int| 0 <= j < i ==> children[j].name@ != name,
    ensures
        find_child(children, name) == find_child(children.skip(i), name),
    decreases i,
{
    if i > 0 {
        lemma_find_child_skip(children, name, i - 1);
        assert(children.skip(i - 1)[0] == children[i - 1]);
        assert(children.skip(i - 1).drop_first() =~= children.skip(i));
    } else {
        assert(children.skip(0) =~= children);
    }
}

/// The spec view of an executable path: each segment as its character
/// sequence.
pub open spec fn path_view(path: Seq<String>) -> Seq<Seq<char>> {
    path.map_values(|s: String| s@)
}

fn resolve_from(children: &Vec<Node>, path: &Vec<String>, k: usize) -> (r: Option<String>)
    requires
        k < path@.len(),
    ensures
        r matches Some(t) ==> resolve_path(children@, path_view(path@).skip(k as int)) == Some(
            t@,
        ),
        r is None ==> resolve_path(children@, path_view(path@).skip(k as int)) is None,
    decreases path@.len() - k,
{
    let ghost pv = path_view(path@).skip(k as int);
    proof {
        assert(pv[0] == path_view(path@)[k as int]);
        assert(path_view(path@)[k as int] == path@[k as int]@);
    }
    let m = path.len();
    let n = children.len();
    let mut i: usize = 0;
    while i < n
        invariant
            k < path@.len(),
            m == path@.len(),
            n == children@.len(),
            pv == path_view(path@).skip(k as int),
            pv.len() == path@.len() - k,
            pv[0] == path@[k as int]@,
            0 <= i <= n,
            forall|j: int| 0 <= j < i ==> children@[j].name@ != path@[k as int]@,
        decreases n - i,
    {
        let child = &children[i];
        if child.name == path[k] {
            proof {
                lemma_find_child_skip(children@, path@[k as int]@, i as int);
                assert(children@.skip(i as int)[0] == children@[i as int]);
                assert(pv[0] == path@[k as int]@);
                assert(find_child(children@, pv[0]) == Some(children@[i as int]));
            }
            if k + 1 == m {
                return Some(child.text.clone());
            } else {
                let r = resolve_from(&child.children, path, k + 1);
                proof {
                    assert(pv.drop_first() =~= path_view(path@).skip(k + 1));
                }
                return r;
            }
        }
        i = i + 1;
    }
    proof {
        lemma_find_child_skip(children@, path@[k as int]@, n as int);
        assert(children@.skip(n as int) =~= Seq::<Node>::empty());
        assert(pv[0] == path@[k as int]@);
    }
    None
}

/// Resolve an element path against a document root: descend from the root's
/// immediate children, one greedy first-name match per level, and return the
/// text content of the element matched at the last path segment. `None` when
/// no element matches at some level, or when the path is empty.
pub fn resolve(root: &Node, path: &Vec<String>) -> (r: Option<String>)
    ensures
        r matches Some(t) ==> resolve_path(root.children@, path_view(path@)) == Some(t@),
        r is None ==> resolve_path(root.children@, path_view(path@)) is None,
{
    if path.len() == 0 {
        return None;
    }
    let r = resolve_from(&root.children, path, 0);
    proof {
        assert(path_view(path@).skip(0) =~= path_view(path@));
    }
    r
}

} // verus!
