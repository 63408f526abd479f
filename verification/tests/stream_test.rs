use fusequery::data::{DataBlock, DataField, DataSchema, DataType, DataValue};
use fusequery::errors::ErrorCode;
use fusequery::streams::DataBlockStream;

fn counter_schema() -> DataSchema {
    DataSchema::create(vec![DataField {
        name: String::from("counter"),
        data_type: DataType::UInt64,
    }])
}

fn counter_block(values: Vec<u64>) -> DataBlock {
    let column: Vec<DataValue> = values.into_iter().map(DataValue::UInt64).collect();
    DataBlock::create(counter_schema(), vec![column])
}

#[test]
fn stream_row_counts_sum_to_logical_size() {
    let blocks = vec![counter_block(vec![1, 2]), counter_block(vec![3, 4, 5]), counter_block(
        vec![],
    )];
    let logical_size: usize = blocks.iter().map(|b| b.num_rows()).sum();
    assert_eq!(logical_size, 5);

    let mut stream = DataBlockStream::create(counter_schema(), blocks);
    let mut yielded_rows = 0;
    let mut yielded_blocks = 0;
    loop {
        match stream.next().unwrap() {
            Some(block) => {
                yielded_rows += block.num_rows();
                yielded_blocks += 1;
            }
            None => break,
        }
    }
    assert_eq!(yielded_rows, logical_size);
    assert_eq!(yielded_blocks, 3);
}

#[test]
fn stream_collect_preserves_order_and_rows() {
    let blocks = vec![counter_block(vec![7]), counter_block(vec![8, 9])];
    let mut stream = DataBlockStream::create(counter_schema(), blocks);
    let collected = stream.try_collect().unwrap();
    assert_eq!(collected.len(), 2);
    assert_eq!(*collected[0].value_at(0, 0), DataValue::UInt64(7));
    assert_eq!(*collected[1].value_at(0, 0), DataValue::UInt64(8));
    assert_eq!(*collected[1].value_at(0, 1), DataValue::UInt64(9));
    // A stream is consumed at most once.
    let empty_again = stream.try_collect().unwrap();
    assert!(empty_again.is_empty());
}

#[test]
fn stream_surfaces_terminal_failure_after_blocks() {
    let blocks = vec![counter_block(vec![1])];
    let mut stream = DataBlockStream::create_with_failure(
        counter_schema(),
        blocks,
        ErrorCode::StoreUnreachable,
    );
    // The block before the failure is delivered: a valid-but-incomplete result.
    let first = stream.next().unwrap();
    assert_eq!(first.unwrap().num_rows(), 1);
    // Then the failure is surfaced unchanged.
    assert!(matches!(stream.next(), Err(ErrorCode::StoreUnreachable)));
    assert!(matches!(stream.try_collect(), Err(ErrorCode::StoreUnreachable)));
}

#[test]
fn block_invariant_shape() {
    let block = counter_block(vec![10, 20, 30]);
    assert_eq!(block.num_columns(), 1);
    assert_eq!(block.num_rows(), 3);
    assert_eq!(*block.value_at(0, 2), DataValue::UInt64(30));

    let empty = counter_block(vec![]);
    assert_eq!(empty.num_columns(), 1);
    assert_eq!(empty.num_rows(), 0);
}
