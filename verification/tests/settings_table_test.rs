use fusequery::data::DataValue;
use fusequery::errors::ErrorCode;
use fusequery::sessions::Context;
use fusequery::storages::{SettingsTable, Table};

#[test]
fn test_settings_table() {
    let mut ctx = Context::try_create(1).unwrap();
    ctx.get_settings_mut().set_max_threads(2).unwrap();

    let table: Box<dyn Table> = Box::new(SettingsTable::create(1));
    let source_plan = table.read_plan(&ctx, None);

    let mut stream = table.read(&ctx, &source_plan).unwrap();
    let result = stream.try_collect().unwrap();
    let block = &result[0];
    assert_eq!(block.num_columns(), 4);
}

#[test]
fn settings_table_fresh_context_block_shape() {
    let ctx = Context::try_create(7).unwrap();
    let table = SettingsTable::create(1);
    let source_plan = table.read_plan(&ctx, None);

    let mut stream = table.read(&ctx, &source_plan).unwrap();
    let result = stream.try_collect().unwrap();
    assert_eq!(result.len(), 1);
    let block = &result[0];
    assert_eq!(block.num_columns(), 4);
    // One row per recognized setting.
    assert_eq!(block.num_rows(), ctx.get_settings().num_settings());
    // Fresh values equal the defaults.
    assert_eq!(*block.value_at(0, 0), DataValue::Text(String::from("max_threads")));
    assert_eq!(*block.value_at(1, 0), DataValue::UInt64(8));
    assert_eq!(*block.value_at(2, 0), DataValue::UInt64(8));
    assert_eq!(*block.value_at(0, 1), DataValue::Text(String::from("max_block_size")));
    assert_eq!(*block.value_at(1, 1), DataValue::UInt64(10000));
}

#[test]
fn settings_table_reflects_max_threads_setter() {
    let mut ctx = Context::try_create(7).unwrap();
    ctx.get_settings_mut().set_max_threads(21).unwrap();

    let table = SettingsTable::create(1);
    let source_plan = table.read_plan(&ctx, None);
    let mut stream = table.read(&ctx, &source_plan).unwrap();
    let result = stream.try_collect().unwrap();
    let block = &result[0];
    assert_eq!(block.num_rows(), 2);
    assert_eq!(*block.value_at(0, 0), DataValue::Text(String::from("max_threads")));
    assert_eq!(*block.value_at(1, 0), DataValue::UInt64(21));
    // The untouched setting keeps its value.
    assert_eq!(*block.value_at(1, 1), DataValue::UInt64(10000));
}

#[test]
fn settings_setter_validates_range() {
    let mut ctx = Context::try_create(3).unwrap();
    let outcome = ctx.get_settings_mut().set_max_threads(0);
    assert_eq!(outcome, Err(ErrorCode::InvalidSettingValue));
    // The store is unchanged on failure.
    assert_eq!(ctx.get_settings().get_max_threads(), Ok(8));
}

#[test]
fn settings_unrecognized_key_rejected() {
    let mut ctx = Context::try_create(3).unwrap();
    let key = String::from("no_such_setting");
    assert_eq!(ctx.get_settings().try_get_u64(&key), Err(ErrorCode::UnknownSetting));
    let outcome = ctx.get_settings_mut().try_set_u64(&key, 5);
    assert_eq!(outcome, Err(ErrorCode::UnknownSetting));
}

#[test]
fn settings_get_after_set() {
    let mut ctx = Context::try_create(3).unwrap();
    ctx.get_settings_mut().set_max_threads(4).unwrap();
    assert_eq!(ctx.get_settings().get_max_threads(), Ok(4));
    let key = String::from("max_block_size");
    assert_eq!(ctx.get_settings().try_get_u64(&key), Ok(10000));
}
