//! The expression trees that the lints look at.
use std::collections::HashSet;

use vstd::prelude::*;

verus! {

/// The identity of a node: the item that owns it, and its place inside that item.
#[derive(Debug, Clone, Copy, PartialEq, Eq, Structural)]
pub struct HirId {
    pub owner: u32,
    pub local_id: u32,
}

impl HirId {
    /// The number that stands for this identity in a [`HirIdSet`].
    pub open spec fn number(self) -> u64 {
        (self.owner * 0x1_0000_0000 + self.local_id) as u64
    }

    /// Packs the owner and the local part into one number.
    fn index(self) -> (index: u64)
        ensures
            index == self.number(),
    {
        self.owner as u64 * 0x1_0000_0000 + self.local_id as u64
    }
}

/// No two identities share a number.
proof fn lemma_number_injective(a: HirId, b: HirId)
    ensures
        a.number() == b.number() ==> a == b,
{
}

/// A set of node identities.
pub struct HirIdSet {
    ids: HashSet<u64>,
}

impl View for HirIdSet {
    type V = Set<HirId>;

    closed spec fn view(&self) -> Set<HirId> {
        Set::new(|id: HirId| self.ids@.contains(id.number()))
    }
}

impl HirIdSet {
    /// The empty set.
    pub fn new() -> (set: Self)
        ensures
            set@ == Set::<HirId>::empty(),
    {
        let set = HirIdSet { ids: HashSet::new() };
        assert(set@ =~= Set::<HirId>::empty());
        set
    }

    /// Adds `id`; the answer is whether it was missing before.
    pub fn insert(&mut self, id: HirId) -> (added: bool)
        ensures
            final(self)@ == old(self)@.insert(id),
            added == !old(self)@.contains(id),
    {
        broadcast use vstd::std_specs::hash::group_hash_axioms;

        let added = self.ids.insert(id.index());
        proof {
            assert forall|other: HirId|
                self@.contains(other) == old(self)@.insert(id).contains(other) by {
                lemma_number_injective(other, id);
            }
            assert(self@ =~= old(self)@.insert(id));
        }
        added
    }

    /// Whether `id` is in the set.
    pub fn contains(&self, id: &HirId) -> (found: bool)
        ensures
            found == self@.contains(*id),
    {
        broadcast use vstd::std_specs::hash::group_hash_axioms;

        self.ids.contains(&id.index())
    }
}

impl Default for HirIdSet {
    /// The empty set.
    fn default() -> (set: Self)
        ensures
            set@ == Set::<HirId>::empty(),
    {
        HirIdSet::new()
    }
}

/// The type of an expression.
#[derive(Debug)]
pub enum Ty {
    /// A reference to a value of the inner type.
    Ref(Box<Ty>),
    /// A struct, enum or union, with its definition path.
    Adt(String),
    /// Any other type.
    Other,
}

impl Ty {
    /// The type that is left once every outer reference is taken off.
    pub open spec fn peeled(self) -> Ty
        decreases self,
    {
        match self {
            Ty::Ref(inner) => inner.peeled(),
            _ => self,
        }
    }

    /// The definition path of the type behind the references, if that is a struct, enum or
    /// union.
    pub open spec fn adt_path(self) -> Option<Seq<char>> {
        match self.peeled() {
            Ty::Adt(path) => Some(path@),
            _ => None,
        }
    }

    /// Takes off every outer reference.
    pub fn peel_refs(&self) -> (ty: &Ty)
        ensures
            *ty == self.peeled(),
        decreases *self,
    {
        match self {
            Ty::Ref(inner) => inner.peel_refs(),
            _ => self,
        }
    }

    /// The definition path of the type behind the references, if it has one.
    pub fn adt_path_text(&self) -> (path: Option<&str>)
        ensures
            self.adt_path() == match path {
                Some(path) => Some(path@),
                None => None,
            },
    {
        match self.peel_refs() {
            Ty::Adt(path) => Some(path.as_str()),
            _ => None,
        }
    }
}

/// What a path names.
#[derive(Debug, Clone, Copy, PartialEq, Eq, Structural)]
pub enum Res {
    /// The local variable that the binding with this identity introduced.
    Local(HirId),
    /// Anything else.
    Other,
}

/// A path in expression position.
#[derive(Debug, Clone, Copy, PartialEq, Eq, Structural)]
pub enum QPath {
    /// A path that name resolution settled, such as `x` or `<T as Trait>::f`.
    Resolved {
        /// Whether the path starts with a type in angle brackets.
        qualified: bool,
        /// What the path names.
        res: Res,
    },
    /// A path that goes through a type, such as `Symbol::new`.
    TypeRelative,
}

/// A literal.
#[derive(Debug)]
pub enum LitKind {
    /// A string literal, with its value.
    Str(String),
    /// Any other literal.
    Other,
}

/// An expression.
#[derive(Debug)]
pub struct Expr {
    pub hir_id: HirId,
    pub kind: ExprKind,
}

/// The forms of expression that the lints tell apart.
#[derive(Debug)]
pub enum ExprKind {
    /// `receiver.segment(args)`
    MethodCall { segment: String, receiver: Box<Expr>, args: Vec<Expr> },
    /// `callee(args)`
    Call { callee: Box<Expr>, args: Vec<Expr> },
    /// A path.
    Path(QPath),
    /// A literal.
    Lit(LitKind),
    /// A loop (`for` and `while` come down to one), with what stands in its body.
    Loop(Vec<Node>),
    /// A closure, with what stands in its body: its parameters and its value.
    Closure(Vec<Node>),
    /// Any other expression, with what stands directly inside it.
    Other(Vec<Node>),
}

/// A pattern, with what stands directly inside it.
#[derive(Debug)]
pub struct Pat {
    pub kind: PatKind,
    pub nodes: Vec<Node>,
}

/// The forms of pattern that the lints tell apart.
#[derive(Debug, Clone, Copy, PartialEq, Eq, Structural)]
pub enum PatKind {
    /// A pattern that introduces the local variable with this identity.
    Binding(HirId),
    /// Any other pattern.
    Other,
}

/// An expression or a pattern, where either can stand.
#[derive(Debug)]
pub enum Node {
    Expr(Expr),
    Pat(Pat),
}

} // verus!
