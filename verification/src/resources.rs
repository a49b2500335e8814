//! What a function body can refer to: the types, functions, tables, memories,
//! globals and segments of its module.

use vstd::prelude::*;

use crate::error::{OperatorValidatorError, OperatorValidatorResult, Verdict};
use crate::primitives::{GlobalType, MemoryType, TableType, Type, TypeOrFuncType};
use crate::type_list::copy_types;

verus! {

/// The parameters and results of a function type.
#[verifier::ext_equal]
pub struct FuncSignature {
    pub inputs: Seq<Type>,
    pub outputs: Seq<Type>,
}

/// The module as the validator sees it: what stands at each index.
pub struct ModuleModel {
    pub types: Map<u32, FuncSignature>,
    /// The type of each function.
    pub functions: Map<u32, FuncSignature>,
    pub tables: Map<u32, TableType>,
    pub memories: Map<u32, MemoryType>,
    pub globals: Map<u32, GlobalType>,
    /// The type of each element segment.
    pub elements: Map<u32, Type>,
    pub element_count: u32,
    pub data_count: u32,
    /// The functions that may be referred to by `ref.func`.
    pub referenced_functions: Set<u32>,
}

impl ModuleModel {
    /// The function type at an index.
    pub open spec fn func_type(&self, at: u32) -> Verdict<FuncSignature> {
        match self.types.get(at) {
            Some(signature) => Ok(signature),
            None => Err("unknown type: type index out of bounds"@),
        }
    }

    /// The parameters and results of a block of type `ty`.
    pub open spec fn block_signature(&self, ty: TypeOrFuncType) -> Verdict<FuncSignature> {
        match ty {
            TypeOrFuncType::Type(Type::EmptyBlockType) => Ok(
                FuncSignature { inputs: seq![], outputs: seq![] },
            ),
            TypeOrFuncType::Type(ty) => Ok(FuncSignature { inputs: seq![], outputs: seq![ty] }),
            TypeOrFuncType::FuncType(at) => self.func_type(at),
        }
    }
}

/// A function type.
pub trait WasmFuncType {
    spec fn view(&self) -> FuncSignature;

    /// The number of parameters.
    fn len_inputs(&self) -> (n: usize)
        ensures
            n == self@.inputs.len(),
    ;

    /// The number of results.
    fn len_outputs(&self) -> (n: usize)
        ensures
            n == self@.outputs.len(),
    ;

    /// The types of the parameters, in order.
    fn inputs(&self) -> (types: Vec<Type>)
        ensures
            types@ == self@.inputs,
    ;

    /// The types of the results, in order.
    fn outputs(&self) -> (types: Vec<Type>)
        ensures
            types@ == self@.outputs,
    ;
}

/// The module around a function body.
pub trait WasmModuleResources {
    /// The function types of the module.
    type FuncType: WasmFuncType;

    spec fn view(&self) -> ModuleModel;

    /// The table at an index.
    fn table_at(&self, at: u32) -> (table: Option<TableType>)
        ensures
            table == self@.tables.get(at),
    ;

    /// The memory at an index.
    fn memory_at(&self, at: u32) -> (memory: Option<MemoryType>)
        ensures
            memory == self@.memories.get(at),
    ;

    /// The global at an index.
    fn global_at(&self, at: u32) -> (global: Option<GlobalType>)
        ensures
            global == self@.globals.get(at),
    ;

    /// The function type at an index.
    fn func_type_at(&self, type_idx: u32) -> (ty: Option<&Self::FuncType>)
        ensures
            match ty {
                Some(ty) => self@.types.get(type_idx) == Some(ty@),
                None => self@.types.get(type_idx) is None,
            },
    ;

    /// The type of the function at an index.
    fn type_of_function(&self, func_idx: u32) -> (ty: Option<&Self::FuncType>)
        ensures
            match ty {
                Some(ty) => self@.functions.get(func_idx) == Some(ty@),
                None => self@.functions.get(func_idx) is None,
            },
    ;

    /// The type of the element segment at an index.
    fn element_type_at(&self, at: u32) -> (ty: Option<Type>)
        ensures
            ty == self@.elements.get(at),
    ;

    /// The number of element segments.
    fn element_count(&self) -> (n: u32)
        ensures
            n == self@.element_count,
    ;

    /// The number of data segments.
    fn data_count(&self) -> (n: u32)
        ensures
            n == self@.data_count,
    ;

    /// Whether the function at an index may be referred to by `ref.func`.
    fn is_function_referenced(&self, idx: u32) -> (b: bool)
        ensures
            b == self@.referenced_functions.contains(idx),
    ;
}

/// The function type at an index, or the error that there is none.
pub(crate) fn func_type_at<T: WasmModuleResources>(resources: &T, at: u32) -> (r:
    OperatorValidatorResult<&T::FuncType>)
    ensures
        match r {
            Ok(ty) => resources@.func_type(at) == Ok::<FuncSignature, Seq<char>>(ty@),
            Err(e) => e.has_placeholder() && resources@.func_type(at) == Err::<
                FuncSignature,
                Seq<char>,
            >(e.message()),
        },
{
    match resources.func_type_at(at) {
        Some(ty) => Ok(ty),
        None => Err(OperatorValidatorError::new("unknown type: type index out of bounds")),
    }
}

/// A function type that lists its parameters and results.
#[derive(Debug)]
pub struct FuncType {
    pub params: Vec<Type>,
    pub results: Vec<Type>,
}

impl WasmFuncType for FuncType {
    open spec fn view(&self) -> FuncSignature {
        FuncSignature { inputs: self.params@, outputs: self.results@ }
    }

    fn len_inputs(&self) -> usize {
        self.params.len()
    }

    fn len_outputs(&self) -> usize {
        self.results.len()
    }

    fn inputs(&self) -> Vec<Type> {
        copy_types(&self.params)
    }

    fn outputs(&self) -> Vec<Type> {
        copy_types(&self.results)
    }
}

/// A module that lists its contents.
#[derive(Debug)]
pub struct Module {
    pub types: Vec<FuncType>,
    /// For each function the index of its type.
    pub functions: Vec<u32>,
    pub tables: Vec<TableType>,
    pub memories: Vec<MemoryType>,
    pub globals: Vec<GlobalType>,
    /// The type of each element segment.
    pub elements: Vec<Type>,
    pub data_count: u32,
    /// The functions that may be referred to by `ref.func`.
    pub referenced_functions: Vec<u32>,
}

/// The elements of a list by their indices.
pub open spec fn by_index<T>(list: Seq<T>) -> Map<u32, T> {
    Map::new(|i: u32| i < list.len(), |i: u32| list[i as int])
}

/// The element of a list at an index.
fn element_at<T: Copy>(list: &Vec<T>, at: u32) -> (element: Option<T>)
    ensures
        element == by_index(list@).get(at),
{
    if (at as usize) < list.len() {
        Some(list[at as usize])
    } else {
        None
    }
}

impl Module {
    pub open spec fn signatures(&self) -> Seq<FuncSignature> {
        self.types@.map_values(|ty: FuncType| ty@)
    }

    fn lookup_type(&self, at: u32) -> (ty: Option<&FuncType>)
        ensures
            match ty {
                Some(ty) => by_index(self.signatures()).get(at) == Some(ty@),
                None => by_index(self.signatures()).get(at) is None,
            },
    {
        if (at as usize) < self.types.len() {
            Some(&self.types[at as usize])
        } else {
            None
        }
    }
}

impl WasmModuleResources for Module {
    type FuncType = FuncType;

    open spec fn view(&self) -> ModuleModel {
        let signatures = by_index(self.signatures());
        let functions = by_index(self.functions@);
        ModuleModel {
            types: signatures,
            functions: Map::new(
                |f: u32| functions.contains_key(f) && signatures.contains_key(functions[f]),
                |f: u32| signatures[functions[f]],
            ),
            tables: by_index(self.tables@),
            memories: by_index(self.memories@),
            globals: by_index(self.globals@),
            elements: by_index(self.elements@),
            element_count: self.elements@.len() as u32,
            data_count: self.data_count,
            referenced_functions: self.referenced_functions@.to_set(),
        }
    }

    fn table_at(&self, at: u32) -> Option<TableType> {
        element_at(&self.tables, at)
    }

    fn memory_at(&self, at: u32) -> Option<MemoryType> {
        element_at(&self.memories, at)
    }

    fn global_at(&self, at: u32) -> Option<GlobalType> {
        element_at(&self.globals, at)
    }

    fn func_type_at(&self, type_idx: u32) -> Option<&FuncType> {
        self.lookup_type(type_idx)
    }

    fn type_of_function(&self, func_idx: u32) -> Option<&FuncType> {
        match element_at(&self.functions, func_idx) {
            Some(type_idx) => self.lookup_type(type_idx),
            None => None,
        }
    }

    fn element_type_at(&self, at: u32) -> Option<Type> {
        element_at(&self.elements, at)
    }

    fn element_count(&self) -> u32 {
        self.elements.len() as u32
    }

    fn data_count(&self) -> u32 {
        self.data_count
    }

    fn is_function_referenced(&self, idx: u32) -> bool {
        for i in 0..self.referenced_functions.len()
            invariant
                forall|j: int| 0 <= j < i ==> self.referenced_functions@[j] != idx,
        {
            if self.referenced_functions[i] == idx {
                return true;
            }
        }
        false
    }
}

/// A plain function type has the parameters and results that it lists.
pub proof fn law_plain_func_type(ty: FuncType)
    ensures
        ty@.inputs == ty.params@,
        ty@.outputs == ty.results@,
{
}

/// At an index a plain module has what it lists there, and nothing else. A function
/// is of the type that its entry names, if there is one.
pub proof fn law_plain_module(module: Module, at: u32)
    ensures
        module@.types.contains_key(at) <==> at < module.types@.len(),
        at < module.types@.len() ==> module@.types[at].inputs == module.types@[at as int].params@
            && module@.types[at].outputs == module.types@[at as int].results@,
        module@.functions.contains_key(at) <==> at < module.functions@.len()
            && module.functions@[at as int] < module.types@.len(),
        module@.functions.contains_key(at) ==> module@.functions[at]
            == module@.types[module.functions@[at as int]],
        module@.tables.contains_key(at) <==> at < module.tables@.len(),
        at < module.tables@.len() ==> module@.tables[at] == module.tables@[at as int],
        module@.memories.contains_key(at) <==> at < module.memories@.len(),
        at < module.memories@.len() ==> module@.memories[at] == module.memories@[at as int],
        module@.globals.contains_key(at) <==> at < module.globals@.len(),
        at < module.globals@.len() ==> module@.globals[at] == module.globals@[at as int],
        module@.elements.contains_key(at) <==> at < module.elements@.len(),
        at < module.elements@.len() ==> module@.elements[at] == module.elements@[at as int],
        module.elements@.len() <= u32::MAX ==> module@.element_count == module.elements@.len(),
        module@.data_count == module.data_count,
        module@.referenced_functions.contains(at) <==> exists|i: int|
            0 <= i < module.referenced_functions@.len() && #[trigger] module.referenced_functions@[i]
                == at,
{
}

} // verus!
