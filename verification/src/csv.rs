//! Decoding of a byte buffer into CSV text, by a schema of typed columns.
//!
//! A buffer is a run of fixed-width records. Each column of the schema takes
//! its bytes from a fixed place in the record, little-endian, and gives one
//! field of the line.

use std::collections::BTreeMap;
use vstd::prelude::*;
use vstd::string::StringExecFns;
use crate::bytes::{
    build_i16_from_u8s, build_u16_from_u8s, build_u32_from_u8s, le_u16, le_u32, signed16,
    signed32, signed8,
};
use crate::order::lemma_integer_keys_ordered;
use crate::text::{push_signed_decimal, signed_decimal};

verus! {

/// A name for one value of a named column.
#[derive(Clone, Debug)]
pub struct NamedValue {
    pub name: String,
    pub value: i32,
}

/// The kind of values that can be converted in CSV format.
#[derive(Clone, Debug)]
pub enum ValueKind {
    /// One byte signed value.
    Int8,
    /// Two bytes signed value.
    Int16,
    /// Four bytes signed value.
    Int32,
    /// One byte unsigned value.
    Uint8,
    /// Two bytes unsigned value.
    Uint16,
    /// Four bytes unsigned value.
    Uint32,
    /// A one byte named value (each concrete value is emitted with its name).
    Named(Vec<NamedValue>),
    /// One byte of padding.
    Pad8,
    /// Two bytes of padding.
    Pad16,
}

/// The description of a column in a CSV file.
#[derive(Clone, Debug)]
pub struct CsvColumn {
    pub name: String,
    pub kind: ValueKind,
}

/// How a column decodes its bytes.
pub enum CsvColumnKind {
    Int8,
    Int16,
    Int32,
    Uint8,
    Uint16,
    Uint32,
    NamedUint8(BTreeMap<u8, String>),
    IgnoreU8,
    IgnoreU16,
}

/// A column with its place in the record.
pub struct CsvColumnHandler {
    pub start: usize,
    pub kind: CsvColumnKind,
    pub name: String,
}

/// The columns of a schema laid out one after the other, and the length
/// of a record.
pub struct CvsLineHandler {
    pub columns: Vec<CsvColumnHandler>,
    pub size: usize,
}

/// The low byte of `value`, as a named column keys its names.
pub open spec fn low_byte(value: i32) -> u8 {
    ((value as int) % 256) as u8
}

/// The names of a named column by the byte they stand for; of two names for
/// one byte the later one counts.
pub open spec fn names_of(values: Seq<NamedValue>) -> Map<u8, Seq<char>>
    decreases values.len(),
{
    if values.len() == 0 {
        Map::empty()
    } else {
        names_of(values.drop_last()).insert(low_byte(values.last().value), values.last().name@)
    }
}

/// The names held by a column kind, by the byte they stand for.
pub open spec fn kind_names(kind: CsvColumnKind) -> Map<u8, Seq<char>> {
    match kind {
        CsvColumnKind::NamedUint8(names) => names@.map_values(|name: String| name@),
        _ => Map::empty(),
    }
}

/// Whether the column kind `kind` decodes what the schema kind `schema` asks for.
pub open spec fn kind_matches(kind: CsvColumnKind, schema: ValueKind) -> bool {
    match schema {
        ValueKind::Int8 => kind is Int8,
        ValueKind::Int16 => kind is Int16,
        ValueKind::Int32 => kind is Int32,
        ValueKind::Uint8 => kind is Uint8,
        ValueKind::Uint16 => kind is Uint16,
        ValueKind::Uint32 => kind is Uint32,
        ValueKind::Named(values) => kind is NamedUint8 && kind_names(kind) == names_of(values@),
        ValueKind::Pad8 => kind is IgnoreU8,
        ValueKind::Pad16 => kind is IgnoreU16,
    }
}

/// Number of bytes that a column of kind `kind` takes in a record.
pub open spec fn width_of(kind: CsvColumnKind) -> int {
    match kind {
        CsvColumnKind::Int8 => 1,
        CsvColumnKind::Int16 => 2,
        CsvColumnKind::Int32 => 4,
        CsvColumnKind::Uint8 => 1,
        CsvColumnKind::Uint16 => 2,
        CsvColumnKind::Uint32 => 4,
        CsvColumnKind::NamedUint8(_) => 1,
        CsvColumnKind::IgnoreU8 => 1,
        CsvColumnKind::IgnoreU16 => 2,
    }
}

/// The value that a column of kind `kind` reads at `start` of `buf`:
/// little-endian, signed or unsigned by its kind; a named column reads its
/// byte as signed, and padding reads as zero.
pub open spec fn value_at(kind: CsvColumnKind, buf: Seq<u8>, start: int) -> int {
    match kind {
        CsvColumnKind::Int8 => signed8(buf[start] as int),
        CsvColumnKind::Int16 => signed16(le_u16(buf[start], buf[start + 1])),
        CsvColumnKind::Int32 => signed32(
            le_u32(buf[start], buf[start + 1], buf[start + 2], buf[start + 3]),
        ),
        CsvColumnKind::Uint8 => buf[start] as int,
        CsvColumnKind::Uint16 => le_u16(buf[start], buf[start + 1]),
        CsvColumnKind::Uint32 => le_u32(buf[start], buf[start + 1], buf[start + 2], buf[start + 3]),
        CsvColumnKind::NamedUint8(_) => signed8(buf[start] as int),
        CsvColumnKind::IgnoreU8 => 0,
        CsvColumnKind::IgnoreU16 => 0,
    }
}

/// The field that a column of kind `kind` gives for the bytes at `start` of
/// `buf`: the name of the byte where a named column has one, else the value
/// in decimal.
pub open spec fn text_at(kind: CsvColumnKind, buf: Seq<u8>, start: int) -> Seq<char> {
    if kind is NamedUint8 && kind_names(kind).contains_key(buf[start]) {
        kind_names(kind)[buf[start]]
    } else {
        signed_decimal(value_at(kind, buf, start))
    }
}

/// The names of the first `n` columns, separated by commas.
pub open spec fn header_fields(columns: Seq<CsvColumnHandler>, n: nat) -> Seq<char>
    decreases n,
{
    if n == 0 {
        Seq::empty()
    } else if n == 1 {
        columns[0].name@
    } else {
        header_fields(columns, (n - 1) as nat) + seq![','] + columns[n - 1].name@
    }
}

/// The header line: every column name, separated by commas, and a line end.
pub open spec fn header_text(columns: Seq<CsvColumnHandler>) -> Seq<char> {
    header_fields(columns, columns.len()) + seq!['\n']
}

/// The fields of the first `n` columns for the record at `offset` of `buf`,
/// separated by commas.
pub open spec fn line_fields(
    columns: Seq<CsvColumnHandler>,
    buf: Seq<u8>,
    offset: int,
    n: nat,
) -> Seq<char>
    decreases n,
{
    if n == 0 {
        Seq::empty()
    } else if n == 1 {
        text_at(columns[0].kind, buf, offset + columns[0].start)
    } else {
        line_fields(columns, buf, offset, (n - 1) as nat) + seq![','] + text_at(
            columns[n - 1].kind,
            buf,
            offset + columns[n - 1].start,
        )
    }
}

/// The line of the record at `offset` of `buf`.
pub open spec fn line_text(columns: Seq<CsvColumnHandler>, buf: Seq<u8>, offset: int) -> Seq<char> {
    line_fields(columns, buf, offset, columns.len()) + seq!['\n']
}

/// The lines of the first `rows` records of `buf`, each `size` bytes long.
pub open spec fn rows_text(
    columns: Seq<CsvColumnHandler>,
    size: int,
    buf: Seq<u8>,
    rows: nat,
) -> Seq<char>
    decreases rows,
{
    if rows == 0 {
        Seq::empty()
    } else {
        rows_text(columns, size, buf, (rows - 1) as nat) + line_text(
            columns,
            buf,
            (rows - 1) * size,
        )
    }
}

/// The CSV text of `buf`: the header, then one line for each whole record;
/// bytes after the last whole record are left out.
pub open spec fn csv_text(columns: Seq<CsvColumnHandler>, size: int, buf: Seq<u8>) -> Seq<char> {
    header_text(columns) + rows_text(columns, size, buf, ((buf.len() as int) / size) as nat)
}

/// The place of column `n` in a record: the widths of the columns before it.
pub open spec fn offset_of(columns: Seq<CsvColumnHandler>, n: nat) -> int
    decreases n,
{
    if n == 0 {
        0
    } else {
        offset_of(columns, (n - 1) as nat) + width_of(columns[n - 1].kind)
    }
}

impl CsvColumnKind {
    pub fn size(&self) -> (r: usize)
        ensures
            r == width_of(*self),
            1 <= r <= 4,
    {
        match self {
            CsvColumnKind::Int8 => 1,
            CsvColumnKind::Int16 => 2,
            CsvColumnKind::Int32 => 4,
            CsvColumnKind::Uint8 => 1,
            CsvColumnKind::Uint16 => 2,
            CsvColumnKind::Uint32 => 4,
            CsvColumnKind::NamedUint8(_) => 1,
            CsvColumnKind::IgnoreU8 => 1,
            CsvColumnKind::IgnoreU16 => 2,
        }
    }

    pub fn get_value(&self, buf: &[u8], start: usize) -> (r: i64)
        requires
            start + width_of(*self) <= buf@.len(),
        ensures
            r == value_at(*self, buf@, start as int),
    {
        match self {
            CsvColumnKind::Int8 => signed_byte(buf[start]) as i64,
            CsvColumnKind::Int16 => build_i16_from_u8s(buf[start], buf[start + 1]) as i64,
            CsvColumnKind::Int32 => {
                let u: u32 = build_u32_from_u8s(
                    buf[start],
                    buf[start + 1],
                    buf[start + 2],
                    buf[start + 3],
                );
                assert((u as i32) == (if u >= 2147483648 { u - 4294967296 } else { u as int }))
                    by (bit_vector);
                (#[verifier::truncate]
                (u as i32)) as i64
            },
            CsvColumnKind::Uint8 => buf[start] as i64,
            CsvColumnKind::Uint16 => build_u16_from_u8s(buf[start], buf[start + 1]) as i64,
            CsvColumnKind::Uint32 => {
                build_u32_from_u8s(buf[start], buf[start + 1], buf[start + 2], buf[start + 3])
                    as i64
            },
            CsvColumnKind::NamedUint8(_) => signed_byte(buf[start]) as i64,
            CsvColumnKind::IgnoreU8 => 0,
            CsvColumnKind::IgnoreU16 => 0,
        }
    }
}

/// The byte `b` read as a signed value.
fn signed_byte(b: u8) -> (r: i8)
    ensures
        r == signed8(b as int),
{
    assert((b as i8) == (if b >= 128 { b - 256 } else { b as int })) by (bit_vector);
    #[verifier::truncate]
    (b as i8)
}

/// The low byte of `value`.
fn low_byte_of(value: i32) -> (r: u8)
    ensures
        r == low_byte(value),
{
    assert((value as u8) == ((value as int) % 256) as u8) by (bit_vector);
    #[verifier::truncate]
    (value as u8)
}

impl CsvColumnKind {
    /// The field for the bytes at `start` of `buf`.
    pub fn get_value_text(&self, buf: &[u8], start: usize) -> (r: String)
        requires
            start + width_of(*self) <= buf@.len(),
        ensures
            r@ == text_at(*self, buf@, start as int),
    {
        broadcast use vstd::std_specs::btree::group_btree_axioms;

        proof {
            lemma_integer_keys_ordered();
        }
        let value: i64 = self.get_value(buf, start);
        if let CsvColumnKind::NamedUint8(names) = self {
            let key: u8 = buf[start];
            match names.get(&key) {
                Some(name) => {
                    let r = name.clone();
                    r
                },
                None => {
                    let mut r = String::new();
                    push_signed_decimal(&mut r, value);
                    r
                },
            }
        } else {
            let mut r = String::new();
            push_signed_decimal(&mut r, value);
            r
        }
    }
}

/// Adding a column leaves the places of the columns before it as they are.
proof fn lemma_offset_of_push(columns: Seq<CsvColumnHandler>, handler: CsvColumnHandler, n: nat)
    requires
        n <= columns.len(),
    ensures
        offset_of(columns.push(handler), n) == offset_of(columns, n),
    decreases n,
{
    if n > 0 {
        lemma_offset_of_push(columns, handler, (n - 1) as nat);
    }
}

/// Columns lie one after the other: each starts where the one before ends,
/// and every one ends within the record.
pub proof fn lemma_offset_of_grows(columns: Seq<CsvColumnHandler>, i: nat, n: nat)
    requires
        i <= n <= columns.len(),
    ensures
        0 <= offset_of(columns, i) <= offset_of(columns, n) <= 4 * n,
    decreases n,
{
    if n > 0 {
        if i < n {
            lemma_offset_of_grows(columns, i, (n - 1) as nat);
        } else {
            lemma_offset_of_grows(columns, (n - 1) as nat, (n - 1) as nat);
        }
    }
}

/// A record of at least one column has at least one byte.
pub proof fn lemma_offset_of_positive(columns: Seq<CsvColumnHandler>)
    requires
        columns.len() > 0,
    ensures
        offset_of(columns, columns.len()) > 0,
{
    lemma_offset_of_grows(columns, (columns.len() - 1) as nat, (columns.len() - 1) as nat);
}

/// The names of a named column, by the byte they stand for.
fn named_values_map(named_values: &Vec<NamedValue>) -> (names: BTreeMap<u8, String>)
    ensures
        names@.map_values(|name: String| name@) == names_of(named_values@),
{
    broadcast use vstd::std_specs::btree::group_btree_axioms;

    let mut names: BTreeMap<u8, String> = BTreeMap::new();
    let mut k: usize = 0;
    while k < named_values.len()
        invariant
            k <= named_values.len(),
            names@.map_values(|name: String| name@) == names_of(named_values@.take(k as int)),
        decreases named_values.len() - k,
    {
        let key: u8 = low_byte_of(named_values[k].value);
        let name: String = named_values[k].name.clone();
        proof {
            lemma_integer_keys_ordered();
        }
        names.insert(key, name);
        k += 1;
        proof {
            let taken = named_values@.take(k as int);
            assert(taken.drop_last() =~= named_values@.take(k - 1));
        }
    }
    assert(named_values@.take(k as int) =~= named_values@);
    names
}

impl CvsLineHandler {
    /// Every column starts where the columns before it end, and the record
    /// is as long as all columns together.
    pub open spec fn wf(&self) -> bool {
        &&& forall|i: int|
            0 <= i < self.columns@.len() ==> (#[trigger] self.columns@[i]).start == offset_of(
                self.columns@,
                i as nat,
            )
        &&& self.size == offset_of(self.columns@, self.columns@.len())
    }

    /// Lays out the columns of `spec` one after the other.
    pub fn new(spec: &Vec<CsvColumn>) -> (r: Self)
        requires
            4 * spec@.len() <= usize::MAX,
        ensures
            r.wf(),
            r.columns@.len() == spec@.len(),
            forall|i: int|
                0 <= i < spec@.len() ==> (#[trigger] r.columns@[i]).name@ == spec@[i].name@
                    && kind_matches(r.columns@[i].kind, spec@[i].kind),
    {
        let mut columns: Vec<CsvColumnHandler> = Vec::new();
        let mut size: usize = 0;
        let mut k: usize = 0;
        while k < spec.len()
            invariant
                k <= spec@.len(),
                4 * spec@.len() <= usize::MAX,
                columns@.len() == k,
                size == offset_of(columns@, k as nat),
                size <= 4 * k,
                forall|i: int|
                    0 <= i < k ==> (#[trigger] columns@[i]).start == offset_of(columns@, i as nat),
                forall|i: int|
                    0 <= i < k ==> (#[trigger] columns@[i]).name@ == spec@[i].name@
                        && kind_matches(columns@[i].kind, spec@[i].kind),
            decreases spec@.len() - k,
        {
            let column = &spec[k];
            let kind = match &column.kind {
                ValueKind::Int8 => CsvColumnKind::Int8,
                ValueKind::Int16 => CsvColumnKind::Int16,
                ValueKind::Int32 => CsvColumnKind::Int32,
                ValueKind::Uint8 => CsvColumnKind::Uint8,
                ValueKind::Uint16 => CsvColumnKind::Uint16,
                ValueKind::Uint32 => CsvColumnKind::Uint32,
                ValueKind::Named(named_values) => CsvColumnKind::NamedUint8(
                    named_values_map(named_values),
                ),
                ValueKind::Pad8 => CsvColumnKind::IgnoreU8,
                ValueKind::Pad16 => CsvColumnKind::IgnoreU16,
            };
            let width: usize = kind.size();
            let handler = CsvColumnHandler { start: size, kind, name: column.name.clone() };
            proof {
                let grown = columns@.push(handler);
                assert forall|n: nat| n <= k implies #[trigger] offset_of(grown, n) == offset_of(
                    columns@,
                    n,
                ) by {
                    lemma_offset_of_push(columns@, handler, n);
                }
                assert(offset_of(grown, (k + 1) as nat) == offset_of(grown, k as nat) + width_of(
                    grown[k as int].kind,
                ));
            }
            size += width;
            columns.push(handler);
            k += 1;
        }
        CvsLineHandler { columns, size }
    }

    /// The header line.
    pub fn build_header(&self) -> (line: String)
        ensures
            line@ == header_text(self.columns@),
    {
        let mut line = String::new();
        let mut k: usize = 0;
        while k < self.columns.len()
            invariant
                k <= self.columns@.len(),
                line@ == header_fields(self.columns@, k as nat),
            decreases self.columns@.len() - k,
        {
            if k > 0 {
                proof {
                    reveal_strlit(",");
                }
                line.append(",");
            }
            line.append(self.columns[k].name.as_str());
            k += 1;
        }
        proof {
            reveal_strlit("\n");
        }
        line.append("\n");
        line
    }

    /// The line of the record that starts at `offset` of `buf`.
    pub fn build_line_at(&self, buf: &[u8], offset: usize) -> (line: String)
        requires
            self.wf(),
            offset + self.size <= buf@.len(),
        ensures
            line@ == line_text(self.columns@, buf@, offset as int),
    {
        let mut line = String::new();
        let mut k: usize = 0;
        let len: usize = buf.len();
        while k < self.columns.len()
            invariant
                self.wf(),
                len == buf@.len(),
                offset + self.size <= buf@.len(),
                k <= self.columns@.len(),
                line@ == line_fields(self.columns@, buf@, offset as int, k as nat),
            decreases self.columns@.len() - k,
        {
            if k > 0 {
                proof {
                    reveal_strlit(",");
                }
                line.append(",");
            }
            let column = &self.columns[k];
            proof {
                lemma_offset_of_grows(self.columns@, (k + 1) as nat, self.columns@.len());
                lemma_offset_of_grows(self.columns@, k as nat, (k + 1) as nat);
            }
            let field: String = column.kind.get_value_text(buf, offset + column.start);
            line.append(field.as_str());
            k += 1;
        }
        proof {
            reveal_strlit("\n");
        }
        line.append("\n");
        line
    }

    /// The line of the record at the start of `buf`.
    pub fn build_line(&self, buf: &[u8]) -> (line: String)
        requires
            self.wf(),
            self.size <= buf@.len(),
        ensures
            line@ == line_text(self.columns@, buf@, 0),
    {
        self.build_line_at(buf, 0)
    }

    /// The CSV text of `buf`: the header, then one line for each whole
    /// record of `buf`.
    pub fn build_text(&self, buf: &[u8]) -> (text: String)
        requires
            self.wf(),
            self.size > 0,
        ensures
            text@ == csv_text(self.columns@, self.size as int, buf@),
    {
        let mut text = String::new();
        let header: String = self.build_header();
        text.append(header.as_str());
        let size: usize = self.size;
        let rows: usize = buf.len() / size;
        let mut k: usize = 0;
        let mut offset: usize = 0;
        while k < rows
            invariant
                self.wf(),
                size == self.size,
                size > 0,
                rows == (buf@.len() as int) / (size as int),
                buf@.len() <= usize::MAX,
                k <= rows,
                offset == k * size,
                text@ == header_text(self.columns@) + rows_text(
                    self.columns@,
                    size as int,
                    buf@,
                    k as nat,
                ),
            decreases rows - k,
        {
            proof {
                assert((k + 1) * size <= buf@.len()) by (nonlinear_arith)
                    requires
                        k + 1 <= rows,
                        rows == (buf@.len() as int) / (size as int),
                        size > 0,
                ;
                assert((k + 1) * size == k * size + size) by (nonlinear_arith);
            }
            let line: String = self.build_line_at(buf, offset);
            text.append(line.as_str());
            offset += size;
            k += 1;
        }
        text
    }
}

} // verus!
