//! Use patterns of the first segment or of a `{ ... }` list, seen as
//! general use patterns; and the items of a function body.
use vstd::prelude::*;

use crate::parser::ast::{
    DestructInitUsePattern, FnDefBody, InitUsePattern, ItemNode, UsePattern, UsePatternNode,
};

verus! {

/// A first-segment pattern as a general use pattern.
pub open spec fn init_as_use_pattern(value: InitUsePattern) -> UsePattern {
    match value {
        InitUsePattern::Id(id) => UsePattern::Id(id),
        InitUsePattern::Path(p) => UsePattern::Path(p),
    }
}

/// A pattern of a `{ ... }` list as a general use pattern: `self` becomes
/// a name.
pub open spec fn destruct_as_use_pattern(value: DestructInitUsePattern) -> UsePattern {
    match value {
        DestructInitUsePattern::Id(id) => UsePattern::Id(id),
        DestructInitUsePattern::Self_(self_) => UsePattern::Id(self_),
        DestructInitUsePattern::Wild(w) => UsePattern::Wild(w),
        DestructInitUsePattern::Path(p) => UsePattern::Path(p),
    }
}

impl From<InitUsePattern> for UsePattern {
    fn from(value: InitUsePattern) -> (p: UsePattern) {
        match value {
            InitUsePattern::Id(id) => UsePattern::Id(id),
            InitUsePattern::Path(p) => UsePattern::Path(p),
        }
    }
}

impl vstd::std_specs::convert::FromSpecImpl<InitUsePattern> for UsePattern {
    open spec fn obeys_from_spec() -> bool {
        true
    }

    open spec fn from_spec(value: InitUsePattern) -> UsePattern {
        init_as_use_pattern(value)
    }
}

impl From<DestructInitUsePattern> for UsePattern {
    fn from(value: DestructInitUsePattern) -> (p: UsePattern) {
        match value {
            DestructInitUsePattern::Id(id) => UsePattern::Id(id),
            DestructInitUsePattern::Self_(self_) => UsePattern::Id(self_),
            DestructInitUsePattern::Wild(w) => UsePattern::Wild(w),
            DestructInitUsePattern::Path(p) => UsePattern::Path(p),
        }
    }
}

impl vstd::std_specs::convert::FromSpecImpl<DestructInitUsePattern> for UsePattern {
    open spec fn obeys_from_spec() -> bool {
        true
    }

    open spec fn from_spec(value: DestructInitUsePattern) -> UsePattern {
        destruct_as_use_pattern(value)
    }
}

impl UsePatternNode<InitUsePattern> {
    /// The pattern as a general use pattern, with the same span.
    pub fn normalize(self) -> (r: UsePatternNode<UsePattern>)
        ensures
            r.use_pattern == init_as_use_pattern(self.use_pattern),
            r.span == self.span,
    {
        UsePatternNode { use_pattern: UsePattern::from(self.use_pattern), span: self.span }
    }
}

impl UsePatternNode<DestructInitUsePattern> {
    /// The pattern as a general use pattern, with the same span; `self`
    /// becomes a name.
    pub fn normalize(self) -> (r: UsePatternNode<UsePattern>)
        ensures
            r.use_pattern == destruct_as_use_pattern(self.use_pattern),
            r.span == self.span,
    {
        UsePatternNode { use_pattern: UsePattern::from(self.use_pattern), span: self.span }
    }
}

/// The items of a function body: those of a block, or its one statement.
pub open spec fn body_items(b: FnDefBody) -> Seq<ItemNode> {
    match b {
        FnDefBody::Block(block) => block.items@,
        FnDefBody::Stmt(s) => seq![*s.stmt],
    }
}

impl FnDefBody {
    /// The items of the body, in order.
    pub fn get_items(&self) -> (r: Vec<&ItemNode>)
        ensures
            r@.len() == body_items(*self).len(),
            forall|k: int| 0 <= k < r@.len() ==> *r@[k] == body_items(*self)[k],
    {
        match self {
            FnDefBody::Block(block) => {
                let mut r: Vec<&ItemNode> = Vec::new();
                let mut i: usize = 0;
                while i < block.items.len()
                    invariant
                        i <= block.items@.len(),
                        r@.len() == i,
                        forall|k: int| 0 <= k < i ==> *r@[k] == block.items@[k],
                    decreases block.items@.len() - i,
                {
                    r.push(&block.items[i]);
                    i = i + 1;
                }
                r
            },
            FnDefBody::Stmt(stmt) => {
                let mut r: Vec<&ItemNode> = Vec::new();
                r.push(&*stmt.stmt);
                r
            },
        }
    }
}

} // verus!
