use wasmi_core::block_type::{BlockType, BlockTypeEncoding, BlockTypeInner, ModuleResources};
use wasmi_core::types::{FuncType, FuncTypeIdx, TypeError, TypeTable, ValueType};

fn table_with(types: Vec<FuncType>) -> TypeTable {
    let mut table = TypeTable::new();
    for ty in types {
        table.push(ty);
    }
    table
}

#[test]
fn empty_block_has_no_params_and_no_results() {
    let table = table_with(vec![]);
    let res = ModuleResources::new(&table);
    let block = BlockType::empty();
    assert_eq!(block.params(res).unwrap(), Vec::<ValueType>::new());
    assert_eq!(block.results(res).unwrap(), Vec::<ValueType>::new());
    let (params, results) = block.params_results(res).unwrap();
    assert_eq!(params, Vec::<ValueType>::new());
    assert_eq!(results, Vec::<ValueType>::new());
}

#[test]
fn empty_block_ignores_table_contents() {
    let table = table_with(vec![
        FuncType::new(vec![ValueType::I32, ValueType::I64], vec![ValueType::F64]),
    ]);
    let res = ModuleResources::new(&table);
    let block = BlockType::empty();
    assert_eq!(block.params(res).unwrap(), Vec::<ValueType>::new());
    assert_eq!(block.results(res).unwrap(), Vec::<ValueType>::new());
}

#[test]
fn single_result_block_returns_exactly_that_type() {
    let table = table_with(vec![]);
    let res = ModuleResources::new(&table);
    let block = BlockType::single_result(ValueType::I64);
    assert_eq!(block.params(res).unwrap(), Vec::<ValueType>::new());
    assert_eq!(block.results(res).unwrap(), vec![ValueType::I64]);
    let (params, results) = block.params_results(res).unwrap();
    assert_eq!(params, Vec::<ValueType>::new());
    assert_eq!(results, vec![ValueType::I64]);
}

#[test]
fn general_block_reads_the_referenced_function_type() {
    let table = table_with(vec![
        FuncType::new(vec![ValueType::F32], vec![ValueType::F64]),
        FuncType::new(
            vec![ValueType::I32, ValueType::I64],
            vec![ValueType::I64, ValueType::I32],
        ),
    ]);
    let res = ModuleResources::new(&table);
    let block = BlockType::func_type(FuncTypeIdx(1));
    assert_eq!(
        block.params(res).unwrap(),
        vec![ValueType::I32, ValueType::I64]
    );
    assert_eq!(
        block.results(res).unwrap(),
        vec![ValueType::I64, ValueType::I32]
    );
    let (params, results) = block.params_results(res).unwrap();
    assert_eq!(params, block.params(res).unwrap());
    assert_eq!(results, block.results(res).unwrap());
}

#[test]
fn out_of_range_type_index_is_a_type_error() {
    let table = table_with(vec![FuncType::new(vec![], vec![])]);
    let res = ModuleResources::new(&table);
    let block = BlockType::func_type(FuncTypeIdx(7));
    assert_eq!(block.params(res), Err(TypeError::UnknownFuncType(7)));
    assert_eq!(block.results(res), Err(TypeError::UnknownFuncType(7)));
    assert_eq!(block.params_results(res), Err(TypeError::UnknownFuncType(7)));
}

#[test]
fn out_of_range_type_index_on_empty_table() {
    let table = table_with(vec![]);
    let res = ModuleResources::new(&table);
    let block = BlockType::func_type(FuncTypeIdx(0));
    assert_eq!(block.results(res), Err(TypeError::UnknownFuncType(0)));
}

#[test]
fn from_encoding_covers_all_encodings() {
    let empty = BlockType::from_encoding(BlockTypeEncoding::Empty).unwrap();
    assert!(matches!(empty.inner, BlockTypeInner::Empty));

    let single = BlockType::from_encoding(BlockTypeEncoding::Value(ValueType::F32)).unwrap();
    assert!(matches!(single.inner, BlockTypeInner::Returns(ValueType::F32)));

    let general = BlockType::from_encoding(BlockTypeEncoding::TypeIndex(3)).unwrap();
    assert!(matches!(general.inner, BlockTypeInner::FuncType(FuncTypeIdx(3))));

    assert_eq!(
        BlockType::from_encoding(BlockTypeEncoding::UnsupportedValue),
        Err(TypeError::UnsupportedValueType)
    );
}

#[test]
fn parsed_encodings_resolve_to_the_matching_variant() {
    let empty = BlockType::try_from_parsed(wasmparser::BlockType::Empty).unwrap();
    assert!(matches!(empty.inner, BlockTypeInner::Empty));

    let single =
        BlockType::try_from_parsed(wasmparser::BlockType::Type(wasmparser::ValType::I32)).unwrap();
    assert!(matches!(single.inner, BlockTypeInner::Returns(ValueType::I32)));

    let general = BlockType::try_from_parsed(wasmparser::BlockType::FuncType(2)).unwrap();
    assert!(matches!(general.inner, BlockTypeInner::FuncType(FuncTypeIdx(2))));

    let unsupported =
        BlockType::try_from_parsed(wasmparser::BlockType::Type(wasmparser::ValType::V128));
    assert_eq!(unsupported, Err(TypeError::UnsupportedValueType));
}

#[test]
fn single_result_and_general_blocks_stay_distinguishable() {
    let mut table = TypeTable::new();
    let idx = table.push(FuncType::new(vec![ValueType::I32], vec![ValueType::I32]));
    assert_eq!(idx, FuncTypeIdx(0));
    let res = ModuleResources::new(&table);

    let block = BlockType::single_result(ValueType::I32);
    assert_eq!(block.results(res).unwrap(), vec![ValueType::I32]);

    let func_type = res.get_func_type(FuncTypeIdx(0)).unwrap();
    assert_eq!(func_type.params, vec![ValueType::I32]);
    assert_eq!(func_type.results, vec![ValueType::I32]);

    let general = BlockType::func_type(FuncTypeIdx(0));
    assert_eq!(general.results(res).unwrap(), vec![ValueType::I32]);
    assert!(matches!(block.inner, BlockTypeInner::Returns(_)));
    assert!(matches!(general.inner, BlockTypeInner::FuncType(_)));
    assert_ne!(block, general);
}
