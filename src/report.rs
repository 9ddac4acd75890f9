use vstd::prelude::*;
use vstd::string::StringExecFns;

verus! {

/// The decimal digit characters, indexed by value.
pub open spec fn digit_chars() -> Seq<char> {
    seq!['0', '1', '2', '3', '4', '5', '6', '7', '8', '9']
}

/// Decimal notation of a natural number, most significant digit first.
pub open spec fn decimal_nat(n: nat) -> Seq<char>
    decreases n,
{
    if n < 10 {
        seq![digit_chars()[n as int]]
    } else {
        decimal_nat(n / 10).push(digit_chars()[(n % 10) as int])
    }
}

/// Decimal notation of an integer, with a leading `-` when negative.
pub open spec fn decimal(n: int) -> Seq<char> {
    if n < 0 {
        seq!['-'] + decimal_nat((-n) as nat)
    } else {
        decimal_nat(n as nat)
    }
}

fn digit_str(d: u64) -> (r: &'static str)
    requires
        d < 10,
    ensures
        r@ == seq![digit_chars()[d as int]],
{
    proof {
        reveal_strlit("0");
        reveal_strlit("1");
        reveal_strlit("2");
        reveal_strlit("3");
        reveal_strlit("4");
        reveal_strlit("5");
        reveal_strlit("6");
        reveal_strlit("7");
        reveal_strlit("8");
        reveal_strlit("9");
    }
    let r = match d {
        0 => "0",
        1 => "1",
        2 => "2",
        3 => "3",
        4 => "4",
        5 => "5",
        6 => "6",
        7 => "7",
        8 => "8",
        _ => "9",
    };
    assert(r@ =~= seq![digit_chars()[d as int]]);
    r
}

fn append_nat(out: &mut String, n: u64)
    ensures
        final(out)@ == old(out)@ + decimal_nat(n as nat),
    decreases n,
{
    if n >= 10 {
        append_nat(out, n / 10);
    }
    out.append(digit_str(n % 10));
    assert(out@ =~= old(out)@ + decimal_nat(n as nat));
}

/// Appends the decimal notation of `n` to `out`.
pub fn append_decimal(out: &mut String, n: i64)
    ensures
        final(out)@ == old(out)@ + decimal(n as int),
{
    if n < 0 {
        proof {
            reveal_strlit("-");
        }
        out.append("-");
        let m: u64 = (0i128 - n as i128) as u64;
        append_nat(out, m);
        assert(out@ =~= old(out)@ + decimal(n as int));
    } else {
        append_nat(out, n as u64);
    }
}

/// The decimal notation of `n`.
pub fn decimal_text(n: i64) -> (r: String)
    ensures
        r@ == decimal(n as int),
{
    let mut out = String::new();
    append_decimal(&mut out, n);
    assert(out@ =~= decimal(n as int));
    out
}

/// The dimensions of a tensor shape, separated by `", "`.
pub open spec fn dims_text(s: Seq<i64>) -> Seq<char>
    decreases s.len(),
{
    if s.len() == 0 {
        Seq::empty()
    } else if s.len() == 1 {
        decimal(s[0] as int)
    } else {
        dims_text(s.drop_last()) + ", "@ + decimal(s.last() as int)
    }
}

/// A tensor shape as a bracketed list, such as `[1, 3, 224, 224]`.
pub open spec fn shape_text(s: Seq<i64>) -> Seq<char> {
    "["@ + dims_text(s) + "]"@
}

/// Appends the bracketed list of the dimensions in `shape` to `out`.
pub fn append_shape(out: &mut String, shape: &Vec<i64>)
    ensures
        final(out)@ == old(out)@ + shape_text(shape@),
{
    out.append("[");
    let n = shape.len();
    for i in 0..n
        invariant
            n == shape@.len(),
            out@ == old(out)@ + "["@ + dims_text(shape@.take(i as int)),
    {
        if i > 0 {
            out.append(", ");
        }
        append_decimal(out, shape[i]);
        assert(shape@.take(i + 1).drop_last() =~= shape@.take(i as int));
        assert(out@ =~= old(out)@ + "["@ + dims_text(shape@.take(i + 1)));
    }
    assert(shape@.take(n as int) =~= shape@);
    out.append("]");
    assert(out@ =~= old(out)@ + shape_text(shape@));
}

/// Short label of a tensor element kind, given as the runtime's `TensorKind` value.
pub open spec fn kind_label(code: i32) -> Seq<char> {
    match code {
        0 => "Undefined"@,
        1 => "F32"@,
        2 => "U8"@,
        3 => "I8"@,
        4 => "U16"@,
        5 => "I16"@,
        6 => "I32"@,
        7 => "I64"@,
        8 => "String"@,
        9 => "Bool"@,
        10 => "F16"@,
        11 => "F64"@,
        12 => "U32"@,
        13 => "U64"@,
        14 => "C64"@,
        15 => "C128"@,
        _ => "Unknown"@,
    }
}

/// The short label of the tensor element kind `code`.
pub fn tensor_kind_label(code: i32) -> (r: &'static str)
    ensures
        r@ == kind_label(code),
{
    match code {
        0 => "Undefined",
        1 => "F32",
        2 => "U8",
        3 => "I8",
        4 => "U16",
        5 => "I16",
        6 => "I32",
        7 => "I64",
        8 => "String",
        9 => "Bool",
        10 => "F16",
        11 => "F64",
        12 => "U32",
        13 => "U64",
        14 => "C64",
        15 => "C128",
        _ => "Unknown",
    }
}

/// What a report shows of one tensor input or output of a model.
pub struct TensorFeature {
    pub name: String,
    pub description: String,
    pub required: bool,
    /// The runtime's `TensorKind` value of the elements.
    pub kind: i32,
    pub shape: Vec<i64>,
}

/// Whether a feature is read or written by the model.
#[derive(Clone, Copy, Debug, PartialEq, Eq, Structural)]
pub enum Direction {
    Input,
    Output,
}

/// What a report shows of a loaded model.
pub struct ModelSummary {
    pub name: String,
    pub path: String,
    pub version: i64,
    pub author: String,
    pub domain: String,
    pub description: String,
    /// Metadata entries as (key, value), in the order the model lists them.
    pub metadata: Vec<(String, String)>,
    /// The tensor inputs, in the order the model declares them.
    pub inputs: Vec<TensorFeature>,
    /// The tensor outputs, in the order the model declares them.
    pub outputs: Vec<TensorFeature>,
}

pub open spec fn direction_tag(d: Direction) -> Seq<char> {
    match d {
        Direction::Input => "\x1B[033mInput:\x1B[0m \x1B[031m"@,
        Direction::Output => "\x1B[033mOutput:\x1B[0m \x1B[031m"@,
    }
}

/// Optional features carry a `*` after their name.
pub open spec fn required_mark(required: bool) -> Seq<char> {
    if required {
        Seq::empty()
    } else {
        "*"@
    }
}

/// One report line of a tensor feature: name, shape, element kind, description.
pub open spec fn feature_line(d: Direction, f: TensorFeature) -> Seq<char> {
    direction_tag(d) + f.name@ + "\x1B[0m"@ + required_mark(f.required)
        + ":\x1B[036mTensor\x1B[0m \x1B[032m"@ + shape_text(f.shape@) + "\x1B[0m \x1B[034m"@
        + kind_label(f.kind) + "\x1B[0m "@ + f.description@ + " \n"@
}

/// The report lines of a list of features, in order.
pub open spec fn features_text(d: Direction, s: Seq<TensorFeature>) -> Seq<char>
    decreases s.len(),
{
    if s.len() == 0 {
        Seq::empty()
    } else {
        features_text(d, s.drop_last()) + feature_line(d, s.last())
    }
}

/// One metadata entry, key and value quoted.
pub open spec fn metadata_line(key: Seq<char>, value: Seq<char>) -> Seq<char> {
    "\""@ + key + "\":\""@ + value + "\"\n"@
}

pub open spec fn metadata_text(s: Seq<(String, String)>) -> Seq<char>
    decreases s.len(),
{
    if s.len() == 0 {
        Seq::empty()
    } else {
        metadata_text(s.drop_last()) + metadata_line(s.last().0@, s.last().1@)
    }
}

/// The model's name and path, then version, author, domain and description.
pub open spec fn header_text(m: ModelSummary) -> Seq<char> {
    "Model \x1B[031m"@ + m.name@ + "\x1B[0m in \x1B[035m"@ + m.path@ + "\x1B[0m\n"@
        + "\x1B[033mVersion\x1B[0m: \x1B[032m"@ + decimal(m.version as int)
        + "\x1B[0m\n\x1B[033mAuthor\x1B[0m: \x1B[032m"@ + m.author@
        + "\x1B[0m\n\x1B[033mDomain: \x1B[033m"@ + m.domain@
        + "\x1B[0m\n\x1B[033mDescription\x1B[0m: "@ + m.description@ + "\n\n"@
}

/// The whole report on a model: header, metadata, inputs, outputs.
pub open spec fn report_text(m: ModelSummary) -> Seq<char> {
    header_text(m) + metadata_text(m.metadata@) + features_text(Direction::Input, m.inputs@)
        + features_text(Direction::Output, m.outputs@)
}

/// Appends the report line of feature `f` to `out`.
pub fn append_feature_line(out: &mut String, d: Direction, f: &TensorFeature)
    ensures
        final(out)@ == old(out)@ + feature_line(d, *f),
{
    match d {
        Direction::Input => out.append("\x1B[033mInput:\x1B[0m \x1B[031m"),
        Direction::Output => out.append("\x1B[033mOutput:\x1B[0m \x1B[031m"),
    }
    out.append(f.name.as_str());
    out.append("\x1B[0m");
    if !f.required {
        out.append("*");
    }
    out.append(":\x1B[036mTensor\x1B[0m \x1B[032m");
    append_shape(out, &f.shape);
    out.append("\x1B[0m \x1B[034m");
    out.append(tensor_kind_label(f.kind));
    out.append("\x1B[0m ");
    out.append(f.description.as_str());
    out.append(" \n");
    assert(out@ =~= old(out)@ + feature_line(d, *f));
}

fn append_features(out: &mut String, d: Direction, fs: &Vec<TensorFeature>)
    ensures
        final(out)@ == old(out)@ + features_text(d, fs@),
{
    let n = fs.len();
    for i in 0..n
        invariant
            n == fs@.len(),
            out@ == old(out)@ + features_text(d, fs@.take(i as int)),
    {
        append_feature_line(out, d, &fs[i]);
        assert(fs@.take(i + 1).drop_last() =~= fs@.take(i as int));
        assert(out@ =~= old(out)@ + features_text(d, fs@.take(i + 1)));
    }
    assert(fs@.take(n as int) =~= fs@);
}

fn append_metadata(out: &mut String, entries: &Vec<(String, String)>)
    ensures
        final(out)@ == old(out)@ + metadata_text(entries@),
{
    let n = entries.len();
    for i in 0..n
        invariant
            n == entries@.len(),
            out@ == old(out)@ + metadata_text(entries@.take(i as int)),
    {
        out.append("\"");
        out.append(entries[i].0.as_str());
        out.append("\":\"");
        out.append(entries[i].1.as_str());
        out.append("\"\n");
        assert(entries@.take(i + 1).drop_last() =~= entries@.take(i as int));
        assert(out@ =~= old(out)@ + metadata_text(entries@.take(i + 1)));
    }
    assert(entries@.take(n as int) =~= entries@);
}

/// The full report on the model described by `m`.
pub fn render_report(m: &ModelSummary) -> (r: String)
    ensures
        r@ == report_text(*m),
{
    let mut out = String::new();
    out.append("Model \x1B[031m");
    out.append(m.name.as_str());
    out.append("\x1B[0m in \x1B[035m");
    out.append(m.path.as_str());
    out.append("\x1B[0m\n");
    out.append("\x1B[033mVersion\x1B[0m: \x1B[032m");
    append_decimal(&mut out, m.version);
    out.append("\x1B[0m\n\x1B[033mAuthor\x1B[0m: \x1B[032m");
    out.append(m.author.as_str());
    out.append("\x1B[0m\n\x1B[033mDomain: \x1B[033m");
    out.append(m.domain.as_str());
    out.append("\x1B[0m\n\x1B[033mDescription\x1B[0m: ");
    out.append(m.description.as_str());
    out.append("\n\n");
    assert(out@ =~= header_text(*m));
    append_metadata(&mut out, &m.metadata);
    append_features(&mut out, Direction::Input, &m.inputs);
    append_features(&mut out, Direction::Output, &m.outputs);
    assert(out@ =~= report_text(*m));
    out
}

/// The text lines of a recognized page, one per line.
pub open spec fn lines_text(lines: Seq<String>) -> Seq<char>
    decreases lines.len(),
{
    if lines.len() == 0 {
        Seq::empty()
    } else {
        lines_text(lines.drop_last()) + lines.last()@ + "\n"@
    }
}

/// The report on a recognized page: the number of lines, as the runtime's
/// successful count result `Ok(n)` is shown, then each line.
pub open spec fn recognition_text(lines: Seq<String>) -> Seq<char> {
    "Ok("@ + decimal(lines.len() as int) + ")\n"@ + lines_text(lines)
}

/// The report on a page whose recognized lines are `lines`.
pub fn recognition_report(lines: &Vec<String>) -> (r: String)
    ensures
        r@ == recognition_text(lines@),
{
    let mut out = String::new();
    out.append("Ok(");
    append_nat(&mut out, lines.len() as u64);
    out.append(")\n");
    let n = lines.len();
    for i in 0..n
        invariant
            n == lines@.len(),
            out@ == "Ok("@ + decimal(n as int) + ")\n"@ + lines_text(lines@.take(i as int)),
    {
        out.append(lines[i].as_str());
        out.append("\n");
        assert(lines@.take(i + 1).drop_last() =~= lines@.take(i as int));
        assert(out@ =~= "Ok("@ + decimal(n as int) + ")\n"@ + lines_text(lines@.take(i + 1)));
    }
    assert(lines@.take(n as int) =~= lines@);
    out
}

} // verus!
