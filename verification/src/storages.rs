use vstd::prelude::*;

use crate::data::{BlockView, DataBlock, DataField, DataSchema, DataType, DataValue, FieldView,
    ValueView};
use crate::errors::ErrorCode;
use crate::sessions::Context;
use crate::settings::{lookup_setting, set_result, setting_key_is, SettingEntry,
    lemma_setting_scan_past_prefix};
use crate::streams::DataBlockStream;

verus! {

/// A pushed-down read description: the one push-down this core models is a
/// row limit. System tables ignore it.
#[derive(Clone, Copy, Debug)]
pub struct Extras {
    pub limit: Option<u64>,
}

/// A source/read plan: which table to read and the schema its blocks will
/// carry. Producing it mutates nothing.
#[derive(Debug)]
pub struct ReadDataSourcePlan {
    pub table_id: u64,
    pub schema: DataSchema,
}

/// The declared shape of the settings table: exactly the four columns
/// name, value, default, description, one row per recognized setting.
pub open spec fn settings_table_schema_view() -> Seq<FieldView> {
    seq![
        FieldView { name: "name"@, data_type: DataType::Utf8 },
        FieldView { name: "value"@, data_type: DataType::UInt64 },
        FieldView { name: "default"@, data_type: DataType::UInt64 },
        FieldView { name: "description"@, data_type: DataType::Utf8 },
    ]
}

/// The one block the settings table yields for a settings store: column 0
/// holds each recognized setting's name, column 1 its current value,
/// column 2 its default, column 3 its description, in store order.
pub open spec fn settings_block_view(entries: Seq<SettingEntry>) -> BlockView {
    BlockView {
        schema: settings_table_schema_view(),
        columns: seq![
            Seq::new(entries.len(), |i: int| ValueView::Text(entries[i].name@)),
            Seq::new(entries.len(), |i: int| ValueView::UInt64(entries[i].value)),
            Seq::new(entries.len(), |i: int| ValueView::UInt64(entries[i].default)),
            Seq::new(entries.len(), |i: int| ValueView::Text(entries[i].description@)),
        ],
    }
}

/// The block the settings table yields is well formed and has one row per
/// recognized setting.
pub proof fn lemma_settings_block_well_formed(entries: Seq<SettingEntry>)
    ensures
        settings_block_view(entries).well_formed(),
        settings_block_view(entries).num_rows() == entries.len(),
{
}

/// The uniform data-source abstraction: every table, system-generated or
/// storage-backed, exposes a stable schema, pure read planning, and block
/// streaming, so interpreters and front ends treat both alike. Every stream
/// a table yields satisfies the stream invariant.
pub trait Table {
    /// The stable schema for the table's identifier.
    fn schema(&self) -> (schema: DataSchema);

    /// Plan a read: a pure function of the table and the push-down.
    fn read_plan(&self, ctx: &Context, push_downs: Option<Extras>) -> (plan: ReadDataSourcePlan);

    /// Materialize rows consistent with the plan.
    fn read(&self, ctx: &Context, source_plan: &ReadDataSourcePlan) -> (outcome: Result<
        DataBlockStream,
        ErrorCode,
    >)
        ensures
            outcome matches Ok(stream) ==> stream.well_formed(),
    ;
}

/// The system table that exposes the Context's recognized settings as one
/// in-memory block. Stateless across calls except for its identifier.
#[derive(Debug)]
pub struct SettingsTable {
    pub table_id: u64,
}

impl SettingsTable {
    pub fn create(table_id: u64) -> (table: SettingsTable)
        ensures
            table.table_id == table_id,
    {
        SettingsTable { table_id }
    }

    /// The stable schema of the settings table: exactly the four columns
    /// {name, value, default, description}.
    pub fn schema(&self) -> (schema: DataSchema)
        ensures
            schema@ =~= settings_table_schema_view(),
    {
        let mut fields: Vec<DataField> = Vec::new();
        fields.push(DataField { name: String::from_str("name"), data_type: DataType::Utf8 });
        fields.push(DataField { name: String::from_str("value"), data_type: DataType::UInt64 });
        fields.push(DataField { name: String::from_str("default"), data_type: DataType::UInt64 });
        fields.push(
            DataField { name: String::from_str("description"), data_type: DataType::Utf8 },
        );
        let schema = DataSchema::create(fields);
        proof {
            assert(schema@ =~= settings_table_schema_view());
        }
        schema
    }

    /// Plan a read: a pure function of the table and the push-down, which
    /// a system table ignores.
    pub fn read_plan(&self, ctx: &Context, push_downs: Option<Extras>) -> (plan: ReadDataSourcePlan)
        ensures
            plan.table_id == self.table_id,
            plan.schema@ =~= settings_table_schema_view(),
    {
        let _ = ctx;
        let _ = push_downs;
        ReadDataSourcePlan { table_id: self.table_id, schema: self.schema() }
    }

    /// Materialize the settings of the given context: a stream of exactly
    /// one block, with one row per recognized setting and the values the
    /// store holds now.
    pub fn read(&self, ctx: &Context, source_plan: &ReadDataSourcePlan) -> (outcome: Result<
        DataBlockStream,
        ErrorCode,
    >)
        ensures
            outcome matches Ok(stream) && {
                &&& stream.well_formed()
                &&& stream.schema@ == settings_table_schema_view()
                &&& stream.remaining() =~= seq![settings_block_view(ctx.settings.entries@)]
                &&& stream.terminal is None
            },
    {
        let _ = source_plan;
        let entries = &ctx.settings.entries;
        let mut names: Vec<DataValue> = Vec::new();
        let mut values: Vec<DataValue> = Vec::new();
        let mut defaults: Vec<DataValue> = Vec::new();
        let mut descriptions: Vec<DataValue> = Vec::new();
        let mut i: usize = 0;
        while i < entries.len()
            invariant
                i <= entries@.len(),
                names@.len() == i,
                values@.len() == i,
                defaults@.len() == i,
                descriptions@.len() == i,
                forall|k: int|
                    0 <= k < i ==> (#[trigger] names@[k])@ == ValueView::Text(entries@[k].name@),
                forall|k: int|
                    0 <= k < i ==> (#[trigger] values@[k])@ == ValueView::UInt64(entries@[k].value),
                forall|k: int|
                    0 <= k < i ==> (#[trigger] defaults@[k])@ == ValueView::UInt64(
                        entries@[k].default,
                    ),
                forall|k: int|
                    0 <= k < i ==> (#[trigger] descriptions@[k])@ == ValueView::Text(
                        entries@[k].description@,
                    ),
            decreases entries@.len() - i,
        {
            names.push(DataValue::Text(entries[i].name.clone()));
            values.push(DataValue::UInt64(entries[i].value));
            defaults.push(DataValue::UInt64(entries[i].default));
            descriptions.push(DataValue::Text(entries[i].description.clone()));
            i = i + 1;
        }
        let mut columns: Vec<Vec<DataValue>> = Vec::new();
        columns.push(names);
        columns.push(values);
        columns.push(defaults);
        columns.push(descriptions);
        let block = DataBlock::create(self.schema(), columns);
        proof {
            let target = settings_block_view(ctx.settings.entries@);
            assert(block@.columns.len() == 4);
            assert forall|j: int, k: int|
                0 <= j < 4 && 0 <= k < block@.columns[j].len() implies #[trigger] block@.columns[j][k]
                == target.columns[j][k] by {
            }
            assert forall|j: int| 0 <= j < 4 implies #[trigger] block@.columns[j]
                =~= target.columns[j] by {
            }
            assert(block@.columns =~~= target.columns);
            assert(block@ =~~= target);
            lemma_settings_block_well_formed(ctx.settings.entries@);
        }
        let blocks_vec: Vec<DataBlock> = vec![block];
        let stream = DataBlockStream::create(self.schema(), blocks_vec);
        proof {
            assert(stream.remaining() =~= seq![settings_block_view(ctx.settings.entries@)]);
        }
        Ok(stream)
    }
}

impl Table for SettingsTable {
    fn schema(&self) -> (schema: DataSchema) {
        SettingsTable::schema(self)
    }

    fn read_plan(&self, ctx: &Context, push_downs: Option<Extras>) -> (plan: ReadDataSourcePlan) {
        SettingsTable::read_plan(self, ctx, push_downs)
    }

    fn read(&self, ctx: &Context, source_plan: &ReadDataSourcePlan) -> (outcome: Result<
        DataBlockStream,
        ErrorCode,
    >) {
        SettingsTable::read(self, ctx, source_plan)
    }
}

/// Settings-table reflection law: after a validated set of `name` to
/// `value` on a store that recognizes `name`, the block the table yields
/// still has one row per recognized setting, and the row for `name` shows
/// `name` in the name column and `value` in the value column.
pub proof fn lemma_settings_block_reflects_set(s: Seq<SettingEntry>, name: Seq<char>, value: u64)
    requires
        lookup_setting(s, name) is Some,
    ensures
        ({
            let block = settings_block_view(set_result(s, name, value));
            &&& block.num_rows() == s.len()
            &&& exists|k: int|
                0 <= k < s.len() && #[trigger] block.columns[0][k] == ValueView::Text(name)
                    && block.columns[1][k] == ValueView::UInt64(value)
        }),
    decreases s.len(),
{
    lemma_lookup_first_index(s, name);
    let k = choose|k: int|
        0 <= k < s.len() && setting_key_is(s[k], name) && forall|j: int|
            0 <= j < k ==> !setting_key_is(#[trigger] s[j], name);
    lemma_setting_scan_past_prefix(s, name, value, k);
    let tail = s.skip(k);
    assert(setting_key_is(tail[0], name));
    assert(set_result(tail, name, value) == seq![
        SettingEntry {
            name: tail[0].name,
            value,
            default: tail[0].default,
            description: tail[0].description,
        },
    ] + tail.drop_first());
    let after = set_result(s, name, value);
    assert(after.len() == s.len());
    assert(after[k].name == s[k].name);
    assert(after[k].value == value);
    let block = settings_block_view(after);
    assert(block.columns[0][k] == ValueView::Text(name));
    assert(block.columns[1][k] == ValueView::UInt64(value));
}

/// A recognized key has a first entry stored under it.
pub proof fn lemma_lookup_first_index(s: Seq<SettingEntry>, name: Seq<char>)
    requires
        lookup_setting(s, name) is Some,
    ensures
        exists|k: int|
            0 <= k < s.len() && setting_key_is(#[trigger] s[k], name) && forall|j: int|
                0 <= j < k ==> !setting_key_is(#[trigger] s[j], name),
    decreases s.len(),
{
    if s.len() > 0 {
        if setting_key_is(s[0], name) {
            assert(0 <= 0 < s.len() && setting_key_is(s[0], name) && forall|j: int|
                0 <= j < 0 ==> !setting_key_is(#[trigger] s[j], name));
        } else {
            lemma_lookup_first_index(s.drop_first(), name);
            let k0 = choose|k: int|
                0 <= k < s.drop_first().len() && setting_key_is(s.drop_first()[k], name)
                    && forall|j: int| 0 <= j < k ==> !setting_key_is(
                    #[trigger] s.drop_first()[j],
                    name,
                );
            assert(s.drop_first()[k0] == s[k0 + 1]);
            assert(setting_key_is(s[k0 + 1], name));
            assert forall|j: int| 0 <= j < k0 + 1 implies !setting_key_is(#[trigger] s[j], name) by {
                if j >= 1 {
                    assert(s.drop_first()[j - 1] == s[j]);
                    assert(!setting_key_is(s.drop_first()[j - 1], name));
                }
            }
        }
    }
}

} // verus!
