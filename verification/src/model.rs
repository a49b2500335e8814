//! The state of validation as mathematics: the operand stack, the open blocks,
//! and how one follows from another.

use vstd::prelude::*;

use crate::error::Verdict;
use crate::primitives::{BlockType, Type};
use crate::resources::FuncSignature;

verus! {

/// An open block.
#[verifier::ext_equal]
pub struct BlockModel {
    /// The types of the parameters.
    pub start_types: Seq<Type>,
    /// The types of the results.
    pub return_types: Seq<Type>,
    /// The height of the operand stack below the block.
    pub stack_starts_at: nat,
    /// Whether a jump to the block goes to its beginning, as for a loop.
    pub jump_to_top: bool,
    /// Whether an `else` may follow.
    pub is_else_allowed: bool,
    /// Whether code of the block was found to be unreachable.
    pub is_dead_code: bool,
    /// If the block can pop operands of any type below its own: how many such
    /// operands it is required to pop.
    pub polymorphic_values: Option<nat>,
}

/// The state in the middle of a function body.
#[verifier::ext_equal]
pub struct FuncModel {
    pub local_types: Seq<Type>,
    /// The open blocks, the innermost last.
    pub blocks: Seq<BlockModel>,
    /// The operands, the topmost last.
    pub stack_types: Seq<Type>,
    /// Whether the body has ended.
    pub end_function: bool,
}

pub open spec fn min(a: int, b: int) -> int {
    if a < b {
        a
    } else {
        b
    }
}

impl BlockModel {
    pub open spec fn is_stack_polymorphic(&self) -> bool {
        self.polymorphic_values is Some
    }

    /// The types that a jump to the block hands over.
    pub open spec fn label_types(&self) -> Seq<Type> {
        if self.jump_to_top {
            self.start_types
        } else {
            self.return_types
        }
    }
}

impl FuncModel {
    /// The state in which a function body begins.
    pub open spec fn initial(signature: FuncSignature) -> FuncModel {
        FuncModel {
            local_types: signature.inputs,
            blocks: seq![
                BlockModel {
                    start_types: seq![],
                    return_types: signature.outputs,
                    stack_starts_at: 0,
                    jump_to_top: false,
                    is_else_allowed: false,
                    is_dead_code: false,
                    polymorphic_values: None,
                },
            ],
            stack_types: seq![],
            end_function: false,
        }
    }

    /// The state with `count` more locals of type `ty`.
    pub open spec fn with_locals(&self, count: nat, ty: Type) -> FuncModel {
        FuncModel { local_types: self.local_types + Seq::new(count, |i: int| ty), ..*self }
    }

    /// Some block is open, and each block's operands lie above those of the
    /// blocks around it.
    pub open spec fn wf(&self) -> bool {
        &&& self.blocks.len() > 0
        &&& forall|i: int, j: int|
            0 <= i <= j < self.blocks.len() ==> self.blocks[i].stack_starts_at
                <= self.blocks[j].stack_starts_at
        &&& self.base() <= self.stack_types.len()
    }

    pub open spec fn last_block(&self) -> BlockModel {
        self.blocks.last()
    }

    /// The block that a relative depth denotes.
    pub open spec fn block_at(&self, depth: int) -> BlockModel {
        self.blocks[self.blocks.len() - 1 - depth]
    }

    /// Whether the innermost block can pop operands of any type.
    pub open spec fn polymorphic(&self) -> bool {
        self.last_block().is_stack_polymorphic()
    }

    /// The height of the operand stack below the innermost block.
    pub open spec fn base(&self) -> nat {
        self.last_block().stack_starts_at
    }

    /// The number of operands of the innermost block.
    pub open spec fn height(&self) -> int {
        self.stack_types.len() - self.base()
    }

    /// The operands of the innermost block.
    pub open spec fn operands(&self) -> Seq<Type> {
        self.stack_types.skip(self.base() as int)
    }

    /// Whether the innermost block has `n` operands to pop.
    pub open spec fn has_operands(&self, n: int) -> bool {
        self.polymorphic() || self.height() >= n
    }

    /// The type of the operand that lies below `index` others, or `None` if it
    /// can be of any type.
    pub open spec fn type_at(&self, index: int) -> Option<Type> {
        if self.polymorphic() && index >= self.height() {
            None
        } else {
            Some(self.stack_types[self.stack_types.len() - 1 - index])
        }
    }

    /// Whether the operand below `index` others can be of type `ty`.
    pub open spec fn accepts(&self, index: int, ty: Type) -> bool {
        self.type_at(index) matches Some(actual) ==> actual == ty
    }

    /// Whether the operands below `above` others can be of the types `types`,
    /// the topmost last.
    pub open spec fn accepts_all(&self, types: Seq<Type>, above: int) -> bool {
        forall|i: int|
            0 <= i < types.len() ==> self.accepts(types.len() - 1 - i + above, #[trigger] types[i])
    }

    /// Whether the innermost block can end with `n` operands, counting those
    /// that it is required to pop.
    pub open spec fn fits(&self, n: int) -> bool {
        match self.last_block().polymorphic_values {
            Some(required) => self.height() + required <= n,
            None => self.height() == n,
        }
    }

    /// The state with another innermost block.
    pub open spec fn with_last_block(&self, block: BlockModel) -> FuncModel {
        FuncModel { blocks: self.blocks.update(self.blocks.len() - 1, block), ..*self }
    }

    /// The state without the topmost `n` operands. A polymorphic block first
    /// gives up its operands, then what it is required to pop.
    pub open spec fn popped(&self, n: int) -> FuncModel {
        if n == 0 {
            *self
        } else if self.polymorphic() {
            let actual = min(n, self.height());
            let required = self.last_block().polymorphic_values->0;
            let block = BlockModel {
                polymorphic_values: Some((required - min(n - actual, required as int)) as nat),
                ..self.last_block()
            };
            FuncModel {
                stack_types: self.stack_types.take(self.stack_types.len() - actual),
                ..self.with_last_block(block)
            }
        } else {
            FuncModel {
                stack_types: self.stack_types.take(self.stack_types.len() - n),
                ..*self
            }
        }
    }

    /// Whether `n` operands can be taken off the innermost block.
    pub open spec fn removal(&self, n: int) -> Verdict<()> {
        if n != 0 && self.polymorphic() && self.height() < 0 {
            Err("invalid block signature"@)
        } else {
            Ok(())
        }
    }

    /// The state with operands of the types `types` on top.
    pub open spec fn pushed(&self, types: Seq<Type>) -> FuncModel {
        FuncModel { stack_types: self.stack_types + types, ..*self }
    }

    /// The state without the condition of an `if`.
    pub open spec fn without_condition(&self) -> FuncModel {
        if !self.polymorphic() || self.height() > 0 {
            FuncModel { stack_types: self.stack_types.drop_last(), ..*self }
        } else {
            *self
        }
    }

    /// The state before a block of this kind takes its parameters.
    pub open spec fn before_params(&self, block_type: BlockType) -> FuncModel {
        if block_type is If {
            self.without_condition()
        } else {
            *self
        }
    }

    /// The state at the beginning of a new block. Its parameters become its
    /// operands. Those that a polymorphic block lacks, the new one is required
    /// to pop.
    pub open spec fn entered(&self, block_type: BlockType, signature: FuncSignature) -> FuncModel {
        let outer = self.before_params(block_type);
        let n = signature.inputs.len();
        let enough = !outer.polymorphic() || n <= outer.height();
        let block = BlockModel {
            start_types: signature.inputs,
            return_types: signature.outputs,
            stack_starts_at: if enough {
                (outer.stack_types.len() - n) as nat
            } else {
                outer.base()
            },
            jump_to_top: block_type is Loop,
            is_else_allowed: block_type is If,
            is_dead_code: false,
            polymorphic_values: if enough {
                None
            } else {
                Some((n - outer.height()) as nat)
            },
        };
        FuncModel { blocks: outer.blocks.push(block), ..outer }
    }

    /// The state after the innermost block: its results take the place of its
    /// operands.
    pub open spec fn left(&self) -> FuncModel {
        FuncModel {
            blocks: self.blocks.drop_last(),
            stack_types: self.stack_types.take(self.base() as int)
                + self.last_block().return_types,
            ..*self
        }
    }

    /// The state at the beginning of the `else` branch: the parameters of the
    /// block are its operands again.
    pub open spec fn in_else(&self) -> FuncModel {
        let block = BlockModel {
            is_else_allowed: false,
            polymorphic_values: None,
            ..self.last_block()
        };
        FuncModel {
            stack_types: self.stack_types.take(self.base() as int) + block.start_types,
            ..self.with_last_block(block)
        }
    }

    /// The state after an operator that never lets control go on.
    pub open spec fn in_dead_code(&self) -> FuncModel {
        let block = BlockModel {
            is_dead_code: true,
            polymorphic_values: Some(0),
            ..self.last_block()
        };
        FuncModel {
            stack_types: self.stack_types.take(self.base() as int),
            ..self.with_last_block(block)
        }
    }

    /// The state in which a polymorphic block has the results of the block at
    /// `depth` for operands, unless it has as many already. The missing ones
    /// count as popped.
    pub open spec fn exact_types_from(&self, depth: int) -> FuncModel {
        let types = self.block_at(depth).return_types;
        if types.len() <= self.height() {
            *self
        } else {
            let required = self.last_block().polymorphic_values->0;
            let used = types.len() - self.height();
            let block = BlockModel {
                polymorphic_values: Some((required - min(used, required as int)) as nat),
                ..self.last_block()
            };
            FuncModel {
                stack_types: self.stack_types.take(self.base() as int) + types,
                ..self.with_last_block(block)
            }
        }
    }

    /// The state after a `select` between operands of type `ty`, where `None`
    /// stands for a type that is not known.
    pub open spec fn selected(&self, ty: Option<Type>) -> FuncModel {
        let rest = self.popped(3);
        match ty {
            Some(ty) => rest.pushed(seq![ty]),
            None => rest.with_last_block(
                BlockModel {
                    polymorphic_values: Some(rest.last_block().polymorphic_values->0 + 1),
                    ..rest.last_block()
                },
            ),
        }
    }

    /// The state after the end of the body.
    pub open spec fn ended(&self) -> FuncModel {
        FuncModel { end_function: true, ..*self }
    }

    /// What it takes for one operand to be accepted.
    pub proof fn lemma_accepts_1(&self, ty: Type)
        ensures
            self.accepts_all(seq![ty], 0) == self.accepts(0, ty),
    {
        let types = seq![ty];
        assert(types[0] == ty);
    }

    /// What it takes for two operands to be accepted.
    pub proof fn lemma_accepts_2(&self, ty1: Type, ty2: Type)
        ensures
            self.accepts_all(seq![ty1, ty2], 0) == (self.accepts(1, ty1) && self.accepts(0, ty2)),
    {
        let types = seq![ty1, ty2];
        assert(types[0] == ty1 && types[1] == ty2);
    }

    /// What it takes for three operands to be accepted.
    pub proof fn lemma_accepts_3(&self, ty1: Type, ty2: Type, ty3: Type)
        ensures
            self.accepts_all(seq![ty1, ty2, ty3], 0) == (self.accepts(2, ty1) && self.accepts(
                1,
                ty2,
            ) && self.accepts(0, ty3)),
    {
        let types = seq![ty1, ty2, ty3];
        assert(types[0] == ty1 && types[1] == ty2 && types[2] == ty3);
    }

    /// Pushing no operand changes nothing.
    pub proof fn lemma_nothing_pushed(&self)
        ensures
            self.pushed(seq![]) == *self,
    {
        assert(self.pushed(seq![]) =~= *self);
    }

    /// Parameters that lie below the condition of an `if` are still there when
    /// the condition is gone.
    pub proof fn lemma_params_stay_accepted(&self, block_type: BlockType, types: Seq<Type>)
        requires
            self.wf(),
            block_type is If ==> self.has_operands(types.len() + 1int) && self.accepts_all(types, 1),
            !(block_type is If) ==> self.has_operands(types.len() as int) && self.accepts_all(
                types,
                0,
            ),
        ensures
            self.before_params(block_type).has_operands(types.len() as int),
            self.before_params(block_type).accepts_all(types, 0),
    {
        if block_type is If {
            let outer = self.before_params(block_type);
            assert forall|i: int| 0 <= i < types.len() implies outer.accepts(
                types.len() - 1 - i + 0,
                #[trigger] types[i],
            ) by {
                assert(self.accepts(types.len() - 1 - i + 1, types[i]));
            }
        }
    }
}

} // verus!
