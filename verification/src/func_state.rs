//! The operand stack and the open blocks of a function body.

use vstd::prelude::*;

use crate::error::{agrees, OperatorValidatorError, OperatorValidatorResult};
use crate::model::{BlockModel, FuncModel};
use crate::primitives::{BlockType, Type, TypeOrFuncType};
use crate::resources::{func_type_at, FuncSignature, ModuleModel, WasmFuncType, WasmModuleResources};
use crate::type_list::{append_types, copy_types};

verus! {

#[derive(Debug)]
pub(crate) struct BlockState {
    pub(crate) start_types: Vec<Type>,
    pub(crate) return_types: Vec<Type>,
    // Position in `FuncState::stack_types` array where block values
    // start.
    pub(crate) stack_starts_at: usize,
    // True for loop.
    pub(crate) jump_to_top: bool,
    pub(crate) is_else_allowed: bool,
    pub(crate) is_dead_code: bool,
    // Amount of the required polymorphic values at the stack_starts_at
    // position in `FuncState::stack_types` array. These values are
    // fictitious and are not actually present in the stack_types.
    pub(crate) polymorphic_values: Option<usize>,
}

impl BlockState {
    pub(crate) open spec fn view(&self) -> BlockModel {
        BlockModel {
            start_types: self.start_types@,
            return_types: self.return_types@,
            stack_starts_at: self.stack_starts_at as nat,
            jump_to_top: self.jump_to_top,
            is_else_allowed: self.is_else_allowed,
            is_dead_code: self.is_dead_code,
            polymorphic_values: match self.polymorphic_values {
                Some(n) => Some(n as nat),
                None => None,
            },
        }
    }
}

impl BlockState {
    pub(crate) fn is_stack_polymorphic(&self) -> (b: bool)
        ensures
            b == self@.is_stack_polymorphic(),
    {
        self.polymorphic_values.is_some()
    }
}

#[derive(Debug)]
pub(crate) struct FuncState {
    pub(crate) local_types: Vec<Type>,
    pub(crate) blocks: Vec<BlockState>,
    pub(crate) stack_types: Vec<Type>,
    pub(crate) end_function: bool,
}

impl FuncState {
    pub(crate) open spec fn view(&self) -> FuncModel {
        FuncModel {
            local_types: self.local_types@,
            blocks: Seq::new(self.blocks@.len(), |i: int| self.blocks@[i]@),
            stack_types: self.stack_types@,
            end_function: self.end_function,
        }
    }
}

impl FuncState {
    pub(crate) fn block_at(&self, depth: usize) -> (block: &BlockState)
        requires
            depth < self@.blocks.len(),
        ensures
            block@ == self@.block_at(depth as int),
    {
        &self.blocks[self.blocks.len() - 1 - depth]
    }

    pub(crate) fn last_block(&self) -> (block: &BlockState)
        requires
            self@.blocks.len() > 0,
        ensures
            block@ == self@.last_block(),
    {
        self.blocks.last().unwrap()
    }

    /// The type of the operand below `index` others, or `None` if it can be of
    /// any type.
    pub(crate) fn stack_type_at(&self, index: usize) -> (ty: Option<Type>)
        requires
            self@.wf(),
            self@.has_operands(index + 1),
        ensures
            ty == self@.type_at(index as int),
    {
        let height: usize = self.stack_types.len() - self.last_block().stack_starts_at;
        if self.last_block().is_stack_polymorphic() && index >= height {
            return None;
        }
        Some(self.stack_types[self.stack_types.len() - 1 - index])
    }

    pub(crate) fn assert_stack_type_at(&self, index: usize, expected: Type) -> (b: bool)
        requires
            self@.wf(),
            self@.has_operands(index + 1),
        ensures
            b == self@.accepts(index as int, expected),
    {
        match self.stack_type_at(index) {
            Some(ty) => ty == expected,
            None => true,
        }
    }

    /// Whether the operands from those of the block at `depth` upwards are
    /// `minimal_len` or more, or one of these blocks is polymorphic.
    pub(crate) fn assert_block_stack_len(&self, depth: usize, minimal_len: usize) -> (b: bool)
        requires
            self@.wf(),
            depth < self@.blocks.len(),
        ensures
            b == ((exists|d: int|
                0 <= d <= depth && (#[trigger] self@.block_at(d)).is_stack_polymorphic())
                || self@.stack_types.len() >= self@.block_at(depth as int).stack_starts_at
                + minimal_len),
    {
        let blocks_end: usize = self.blocks.len();
        let block_offset: usize = blocks_end - 1 - depth;
        for i in block_offset..blocks_end
            invariant
                blocks_end == self.blocks@.len(),
                block_offset == blocks_end - 1 - depth,
                depth < blocks_end,
                forall|d: int|
                    blocks_end - i <= d <= depth ==> !(#[trigger] self@.block_at(
                        d,
                    )).is_stack_polymorphic(),
        {
            assert(self@.block_at(blocks_end - 1 - i) == self.blocks@[i as int]@);
            if self.blocks[i].is_stack_polymorphic() {
                return true;
            }
        }
        let block_starts_at: usize = self.blocks[block_offset].stack_starts_at;
        proof {
            let m = self@;
            assert(m.blocks[block_offset as int].stack_starts_at <= m.last_block().stack_starts_at);
        }
        self.stack_types.len() - block_starts_at >= minimal_len
    }

    /// Whether the innermost block has `len` operands below `above` others.
    pub(crate) fn assert_last_block_stack_len(&self, len: usize, above: usize) -> (b: bool)
        requires
            self@.wf(),
        ensures
            b == self@.has_operands(len + above),
    {
        assert(self@.block_at(0) == self@.last_block());
        assert(self.stack_types.len() <= usize::MAX);
        match len.checked_add(above) {
            Some(minimal_len) => self.assert_block_stack_len(0, minimal_len),
            None => self.last_block().is_stack_polymorphic(),
        }
    }

    /// Whether the operands of the innermost block, with those that it is
    /// required to pop, can be `len` in number.
    pub(crate) fn assert_last_block_stack_len_exact(&self, len: usize) -> (b: bool)
        requires
            self@.wf(),
        ensures
            b == self@.fits(len as int),
    {
        let height: usize = self.stack_types.len() - self.last_block().stack_starts_at;
        match self.last_block().polymorphic_values {
            Some(polymorphic_values) => height <= len && polymorphic_values <= len - height,
            None => height == len,
        }
    }

    /// Whether the operands below `above` others can be of the types `types`,
    /// the topmost last.
    pub(crate) fn assert_stack_types(&self, types: &Vec<Type>, above: usize) -> (b: bool)
        requires
            self@.wf(),
            self@.has_operands(types@.len() + above),
            types@.len() + above <= usize::MAX + 1,
        ensures
            b == self@.accepts_all(types@, above as int),
    {
        let len: usize = types.len();
        for i in 0..len
            invariant
                self@.wf(),
                len == types@.len(),
                self@.has_operands(len + above),
                len + above <= usize::MAX + 1,
                forall|j: int|
                    0 <= j < i ==> self@.accepts(len - 1 - j + above, #[trigger] types@[j]),
        {
            if !self.assert_stack_type_at(len - 1 - i + above, types[i]) {
                return false;
            }
        }
        true
    }

    /// Takes `remove_count` operands off the innermost block.
    pub(crate) fn remove_frame_stack_types(&mut self, remove_count: usize) -> (r:
        OperatorValidatorResult<()>)
        requires
            old(self)@.blocks.len() > 0,
            old(self)@.has_operands(remove_count as int),
        ensures
            agrees(r, old(self)@.removal(remove_count as int)),
            final(self)@ == (if r is Ok {
                old(self)@.popped(remove_count as int)
            } else {
                old(self)@
            }),
    {
        if remove_count == 0 {
            return Ok(());
        }
        let len: usize = self.stack_types.len();
        let last: usize = self.blocks.len() - 1;
        match self.blocks[last].polymorphic_values {
            Some(polymorphic_values) => {
                let height: usize = match len.checked_sub(self.blocks[last].stack_starts_at) {
                    Some(height) => height,
                    None => return Err(OperatorValidatorError::new("invalid block signature")),
                };
                let remove_non_polymorphic: usize = if height < remove_count {
                    height
                } else {
                    remove_count
                };
                self.stack_types.truncate(len - remove_non_polymorphic);
                let rest: usize = remove_count - remove_non_polymorphic;
                let remove_polymorphic: usize = if rest < polymorphic_values {
                    rest
                } else {
                    polymorphic_values
                };
                self.blocks[last].polymorphic_values = Some(
                    polymorphic_values - remove_polymorphic,
                );
            },
            None => {
                self.stack_types.truncate(len - remove_count);
            },
        }
        assert(self@ =~~= old(self)@.popped(remove_count as int));
        Ok(())
    }

    pub(crate) fn change_frame(&mut self, remove_count: usize) -> (r: OperatorValidatorResult<()>)
        requires
            old(self)@.wf(),
            old(self)@.has_operands(remove_count as int),
        ensures
            r is Ok,
            final(self)@ == old(self)@.popped(remove_count as int),
            final(self)@.wf(),
    {
        self.remove_frame_stack_types(remove_count)
    }

    pub(crate) fn change_frame_with_type(&mut self, remove_count: usize, ty: Type) -> (r:
        OperatorValidatorResult<()>)
        requires
            old(self)@.wf(),
            old(self)@.has_operands(remove_count as int),
        ensures
            r is Ok,
            final(self)@ == old(self)@.popped(remove_count as int).pushed(seq![ty]),
            final(self)@.wf(),
    {
        self.remove_frame_stack_types(remove_count)?;
        self.stack_types.push(ty);
        assert(self@ =~~= old(self)@.popped(remove_count as int).pushed(seq![ty]));
        Ok(())
    }

    pub(crate) fn change_frame_with_types(
        &mut self,
        remove_count: usize,
        new_items: &Vec<Type>,
    ) -> (r: OperatorValidatorResult<()>)
        requires
            old(self)@.wf(),
            old(self)@.has_operands(remove_count as int),
        ensures
            r is Ok,
            final(self)@ == old(self)@.popped(remove_count as int).pushed(new_items@),
            final(self)@.wf(),
    {
        self.remove_frame_stack_types(remove_count)?;
        append_types(&mut self.stack_types, new_items);
        assert(self@ =~~= old(self)@.popped(remove_count as int).pushed(new_items@));
        Ok(())
    }

    /// Opens a block.
    pub(crate) fn push_block<R: WasmModuleResources>(
        &mut self,
        ty: TypeOrFuncType,
        block_type: BlockType,
        resources: &R,
    ) -> (r: OperatorValidatorResult<()>)
        requires
            old(self)@.wf(),
            resources@.block_signature(ty) matches Ok(signature) ==> {
                &&& block_type is If ==> old(self)@.has_operands(1)
                &&& old(self)@.before_params(block_type).has_operands(signature.inputs.len() as int)
            },
        ensures
            final(self)@.wf(),
            match resources@.block_signature(ty) {
                Err(message) => {
                    &&& agrees(r, Err(message))
                    &&& *final(self) == *old(self)
                },
                Ok(signature) => {
                    let outer = old(self)@.before_params(block_type);
                    if outer.accepts_all(signature.inputs, 0) {
                        &&& r is Ok
                        &&& final(self)@ == old(self)@.entered(block_type, signature)
                    } else {
                        &&& agrees(r, Err("stack operand type mismatch"@))
                        &&& final(self)@ == outer
                    }
                },
            },
    {
        let mut start_types: Vec<Type> = Vec::new();
        let mut return_types: Vec<Type> = Vec::new();
        match ty {
            TypeOrFuncType::Type(Type::EmptyBlockType) => {},
            TypeOrFuncType::Type(ty) => {
                return_types.push(ty);
            },
            TypeOrFuncType::FuncType(idx) => {
                let ty = func_type_at(resources, idx)?;
                start_types = ty.inputs();
                return_types = ty.outputs();
            },
        }
        let ghost signature = FuncSignature { inputs: start_types@, outputs: return_types@ };
        assert(resources@.block_signature(ty) == Ok::<FuncSignature, Seq<char>>(signature));
        if block_type == BlockType::If {
            // Collect conditional value from the stack_types.
            let last_block = self.last_block();
            if !last_block.is_stack_polymorphic() || self.stack_types.len()
                > last_block.stack_starts_at {
                self.stack_types.pop();
            }
        }
        let ghost outer = old(self)@.before_params(block_type);
        assert(self@ =~~= outer);
        for i in 0..start_types.len()
            invariant
                self@ == outer,
                outer == old(self)@.before_params(block_type),
                resources@.block_signature(ty) == Ok::<FuncSignature, Seq<char>>(signature),
                outer.wf(),
                start_types@ == signature.inputs,
                outer.has_operands(start_types@.len() as int),
                forall|j: int|
                    start_types@.len() - i <= j < start_types@.len() ==> outer.accepts(
                        start_types@.len() - 1 - j,
                        #[trigger] start_types@[j],
                    ),
        {
            let expected = start_types[start_types.len() - 1 - i];
            if !self.assert_stack_type_at(i, expected) {
                assert(!outer.accepts_all(signature.inputs, 0)) by {
                    let j = start_types@.len() - 1 - i;
                    assert(!outer.accepts(start_types@.len() - 1 - j + 0, start_types@[j]));
                }
                return Err(OperatorValidatorError::new("stack operand type mismatch"));
            }
        }
        // When stack for last block is polymorphic, ensure that
        // the polymorphic_values matches, and next block is informed about that.
        let last_starts_at: usize = self.last_block().stack_starts_at;
        let height: usize = self.stack_types.len() - last_starts_at;
        let (stack_starts_at, polymorphic_values) = if !self.last_block().is_stack_polymorphic()
            || start_types.len() <= height {
            (self.stack_types.len() - start_types.len(), None)
        } else {
            (last_starts_at, Some(start_types.len() - height))
        };
        self.blocks.push(
            BlockState {
                start_types,
                return_types,
                stack_starts_at,
                jump_to_top: block_type == BlockType::Loop,
                is_else_allowed: block_type == BlockType::If,
                is_dead_code: false,
                polymorphic_values,
            },
        );
        assert(self@ =~~= old(self)@.entered(block_type, signature));
        Ok(())
    }

    /// Closes the innermost block.
    pub(crate) fn pop_block(&mut self)
        requires
            old(self)@.wf(),
            old(self)@.blocks.len() > 1,
            old(self)@.polymorphic() ==> old(self)@.height()
                <= old(self)@.last_block().return_types.len(),
            !old(self)@.polymorphic() ==> old(self)@.height()
                == old(self)@.last_block().return_types.len(),
        ensures
            final(self)@ == old(self)@.left(),
            final(self)@.wf(),
    {
        match self.blocks.pop() {
            Some(last_block) => {
                self.stack_types.truncate(last_block.stack_starts_at);
                append_types(&mut self.stack_types, &last_block.return_types);
            },
            None => {},
        }
        assert(self@ =~~= old(self)@.left());
    }

    /// Begins the `else` branch of the innermost block.
    pub(crate) fn reset_block(&mut self)
        requires
            old(self)@.wf(),
            old(self)@.last_block().is_else_allowed,
        ensures
            final(self)@ == old(self)@.in_else(),
            final(self)@.wf(),
    {
        let last: usize = self.blocks.len() - 1;
        let keep: usize = self.blocks[last].stack_starts_at;
        self.stack_types.truncate(keep);
        append_types(&mut self.stack_types, &self.blocks[last].start_types);
        self.blocks[last].is_else_allowed = false;
        self.blocks[last].polymorphic_values = None;
        assert(self@ =~~= old(self)@.in_else());
    }

    /// Gives a polymorphic block the results of the block at `depth` for
    /// operands, unless it has enough of them.
    pub(crate) fn change_frame_to_exact_types_from(&mut self, depth: usize) -> (r:
        OperatorValidatorResult<()>)
        requires
            old(self)@.wf(),
            depth < old(self)@.blocks.len(),
            old(self)@.has_operands(old(self)@.block_at(depth as int).return_types.len() as int),
        ensures
            r is Ok,
            final(self)@ == old(self)@.exact_types_from(depth as int),
            final(self)@.wf(),
    {
        let types = copy_types(&self.block_at(depth).return_types);
        let last: usize = self.blocks.len() - 1;
        let keep: usize = self.blocks[last].stack_starts_at;
        let height: usize = self.stack_types.len() - keep;
        if types.len() <= height {
            // Have enough operands on stack, validation is done at `check_jump_from_block`.
            return Ok(());
        }
        let polymorphic_values_used: usize = types.len() - height;
        self.stack_types.truncate(keep);
        append_types(&mut self.stack_types, &types);
        // Keep polymorphic stack.
        if let Some(polymorphic_values) = self.blocks[last].polymorphic_values {
            self.blocks[last].polymorphic_values = Some(
                polymorphic_values.saturating_sub(polymorphic_values_used),
            );
        }
        assert(self@ =~~= old(self)@.exact_types_from(depth as int));
        Ok(())
    }

    /// Replaces the operands of a `select` by its result.
    pub(crate) fn change_frame_after_select(&mut self, ty: Option<Type>) -> (r:
        OperatorValidatorResult<()>)
        requires
            old(self)@.wf(),
            old(self)@.has_operands(3),
            ty is None ==> old(self)@.polymorphic() && old(
                self,
            )@.popped(3).last_block().polymorphic_values->0 < usize::MAX,
        ensures
            r is Ok,
            final(self)@ == old(self)@.selected(ty),
            final(self)@.wf(),
    {
        self.remove_frame_stack_types(3)?;
        match ty {
            Some(ty) => {
                self.stack_types.push(ty);
            },
            None => {
                let last: usize = self.blocks.len() - 1;
                if let Some(polymorphic_values) = self.blocks[last].polymorphic_values {
                    self.blocks[last].polymorphic_values = Some(polymorphic_values + 1);
                }
            },
        }
        assert(self@ =~~= old(self)@.selected(ty));
        Ok(())
    }

    /// Marks the code that follows in the innermost block as unreachable.
    pub(crate) fn start_dead_code(&mut self)
        requires
            old(self)@.wf(),
        ensures
            final(self)@ == old(self)@.in_dead_code(),
            final(self)@.wf(),
    {
        let last: usize = self.blocks.len() - 1;
        let keep: usize = self.blocks[last].stack_starts_at;
        self.stack_types.truncate(keep);
        self.blocks[last].is_dead_code = true;
        self.blocks[last].polymorphic_values = Some(0);
        assert(self@ =~~= old(self)@.in_dead_code());
    }

    /// Ends the body.
    pub(crate) fn end_function(&mut self)
        ensures
            final(self)@ == old(self)@.ended(),
    {
        self.end_function = true;
        assert(self@ =~~= old(self)@.ended());
    }
}

} // verus!
