use vstd::prelude::*;

verus! {

/// The column types this engine materializes in result sets.
#[derive(Clone, Copy, Debug, PartialEq, Eq, Structural)]
pub enum DataType {
    UInt64,
    Utf8,
}

/// One named, typed column of a schema.
#[derive(Debug)]
pub struct DataField {
    pub name: String,
    pub data_type: DataType,
}

/// Mathematical image of a `DataField`: the name as a character sequence.
pub struct FieldView {
    pub name: Seq<char>,
    pub data_type: DataType,
}

impl Clone for DataField {
    fn clone(&self) -> (res: Self)
        ensures
            res == *self,
    {
        DataField { name: self.name.clone(), data_type: self.data_type }
    }
}

impl View for DataField {
    type V = FieldView;

    open spec fn view(&self) -> FieldView {
        FieldView { name: self.name@, data_type: self.data_type }
    }
}

impl DeepView for DataField {
    type V = FieldView;

    open spec fn deep_view(&self) -> FieldView {
        self.view()
    }
}

/// An ordered sequence of (name, type) pairs, shared by reference across
/// plans, tables and blocks.
#[derive(Debug)]
pub struct DataSchema {
    pub fields: Vec<DataField>,
}

impl Clone for DataSchema {
    fn clone(&self) -> (res: Self)
        ensures
            res@ == self@,
            res.fields@ == self.fields@,
    {
        let fields = self.fields.clone();
        proof {
            assert forall|i: int| 0 <= i < fields@.len() implies fields@[i] == self.fields@[i] by {
                assert(cloned::<DataField>(self.fields@[i], fields@[i]));
            }
            assert(fields@ =~= self.fields@);
        }
        DataSchema { fields }
    }
}

impl View for DataSchema {
    type V = Seq<FieldView>;

    open spec fn view(&self) -> Seq<FieldView> {
        self.fields.deep_view()
    }
}

impl DataSchema {
    /// A schema with no columns, the declared shape of administrative
    /// statements that return no rows.
    pub fn empty() -> (schema: DataSchema)
        ensures
            schema@ =~= Seq::<FieldView>::empty(),
    {
        DataSchema { fields: Vec::new() }
    }

    pub fn create(fields: Vec<DataField>) -> (schema: DataSchema)
        ensures
            schema@ == fields.deep_view(),
    {
        DataSchema { fields }
    }

    pub fn num_fields(&self) -> (n: usize)
        ensures
            n == self@.len(),
    {
        self.fields.len()
    }
}

/// One cell of a column.
#[derive(Debug, PartialEq)]
pub enum DataValue {
    UInt64(u64),
    Text(String),
}

impl Clone for DataValue {
    fn clone(&self) -> (res: Self)
        ensures
            res == *self,
    {
        match self {
            DataValue::UInt64(x) => DataValue::UInt64(*x),
            DataValue::Text(s) => DataValue::Text(s.clone()),
        }
    }
}

/// Mathematical image of a `DataValue`.
pub enum ValueView {
    UInt64(u64),
    Text(Seq<char>),
}

impl View for DataValue {
    type V = ValueView;

    open spec fn view(&self) -> ValueView {
        match self {
            DataValue::UInt64(x) => ValueView::UInt64(*x),
            DataValue::Text(s) => ValueView::Text(s@),
        }
    }
}

impl DeepView for DataValue {
    type V = ValueView;

    open spec fn deep_view(&self) -> ValueView {
        self.view()
    }
}

impl ValueView {
    /// Whether a cell inhabits the column type the schema declares for it.
    pub open spec fn matches_type(self, t: DataType) -> bool {
        match self {
            ValueView::UInt64(_) => t == DataType::UInt64,
            ValueView::Text(_) => t == DataType::Utf8,
        }
    }
}

/// Mathematical image of a `DataBlock`.
pub struct BlockView {
    pub schema: Seq<FieldView>,
    pub columns: Seq<Seq<ValueView>>,
}

impl BlockView {
    /// Rows in the block: the length every column must share. A block with
    /// no columns has no rows.
    pub open spec fn num_rows(self) -> int {
        if self.columns.len() == 0 {
            0
        } else {
            self.columns[0].len() as int
        }
    }

    /// The block invariant: the column count equals the schema's length,
    /// every column has the same row count, and every cell inhabits the
    /// type its column declares.
    pub open spec fn well_formed(self) -> bool {
        &&& self.columns.len() == self.schema.len()
        &&& forall|j: int| 0 <= j < self.columns.len() ==> (#[trigger] self.columns[j]).len()
            == self.num_rows()
        &&& forall|j: int, i: int|
            0 <= j < self.columns.len() && 0 <= i < self.columns[j].len() ==> (
            #[trigger] self.columns[j][i]).matches_type(self.schema[j].data_type)
    }
}

/// A schema-typed, fixed-shape chunk of columnar rows: the unit of streamed
/// results. `columns` is stored column-major; every column has one cell per
/// row.
#[derive(Debug)]
pub struct DataBlock {
    pub schema: DataSchema,
    pub columns: Vec<Vec<DataValue>>,
}

impl View for DataBlock {
    type V = BlockView;

    open spec fn view(&self) -> BlockView {
        BlockView { schema: self.schema@, columns: self.columns.deep_view() }
    }
}

impl DeepView for DataBlock {
    type V = BlockView;

    open spec fn deep_view(&self) -> BlockView {
        self.view()
    }
}

impl Clone for DataBlock {
    fn clone(&self) -> (res: Self)
        ensures
            res@ == self@,
    {
        let columns = self.columns.clone();
        proof {
            assert forall|j: int|
                0 <= j < columns.deep_view().len() implies columns.deep_view()[j]
                == self.columns.deep_view()[j] by {
                assert(cloned::<Vec<DataValue>>(self.columns@[j], columns@[j]));
                let a = self.columns@[j];
                let b = columns@[j];
                assert forall|i: int| 0 <= i < b.deep_view().len() implies b.deep_view()[i]
                    == a.deep_view()[i] by {
                    assert(cloned::<DataValue>(a@[i], b@[i]));
                }
                assert(b.deep_view() =~= a.deep_view());
            }
            assert(columns.deep_view() =~= self.columns.deep_view());
        }
        DataBlock { schema: self.schema.clone(), columns }
    }
}

impl DataBlock {
    /// Build a block from its parts; the caller supplies the invariant.
    pub fn create(schema: DataSchema, columns: Vec<Vec<DataValue>>) -> (block: DataBlock)
        ensures
            block@ == (BlockView { schema: schema@, columns: columns.deep_view() }),
    {
        DataBlock { schema, columns }
    }

    pub fn num_columns(&self) -> (n: usize)
        ensures
            n == self@.columns.len(),
    {
        self.columns.len()
    }

    pub fn num_rows(&self) -> (n: usize)
        ensures
            n == self@.num_rows(),
    {
        if self.columns.len() == 0 {
            0
        } else {
            self.columns[0].len()
        }
    }

    /// Read one cell.
    pub fn value_at(&self, column: usize, row: usize) -> (v: &DataValue)
        requires
            column < self@.columns.len(),
            row < self@.columns[column as int].len(),
        ensures
            v@ == self@.columns[column as int][row as int],
    {
        &self.columns[column][row]
    }
}

} // verus!
