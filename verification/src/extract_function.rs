//! From a marked function to the pieces of its service: its parameters and
//! result, the source that surrounds it, the forwarder that keeps that source
//! compiling, and the bundle of the derived project.
use vstd::prelude::*;
use vstd::string::*;

use crate::archive::{
    append_data, archive_entries, into_inner, is_portable_name, is_portable_top, new_builder,
    portable_name, portable_path, portable_top, tar_image, ArchiveItem, KIND_DIR, KIND_FILE,
};
use crate::build_project::{is_excluded, path_is_excluded};
use crate::distributed_platform::{DistributionError, DistributionResult};
use crate::order::{lemma_path_order, path_before, path_lt};
use crate::text::{
    concat2, concat3, decimal, decimal_spec, from_chars, join, join_rows, join_spec, join_wrapped,
    lines_spec, rows, split_lines, to_chars, views,
    wrap_each,
};

verus! {

/// A parameter with its pattern and its type, each as source text.
#[derive(Debug)]
pub struct PatType {
    pub pat: String,
    pub ty: String,
}

/// A parameter of a function: the receiver of a method, as source text, or
/// a pattern with its type.
#[derive(Debug)]
pub enum FnArg {
    Receiver(String),
    Typed(PatType),
}

/// The signature of a function. Names and types are source text; the
/// generics and the `where` clause are empty where the function has none.
#[derive(Debug)]
pub struct Signature {
    pub asyncness: bool,
    pub ident: String,
    pub generics: String,
    pub inputs: Vec<FnArg>,
    pub output: Option<String>,
    pub where_clause: String,
}

/// A function: what stands before its signature (attributes, visibility and
/// qualifiers other than `async`), its signature, and its body with the
/// braces.
#[derive(Debug)]
pub struct ItemFn {
    pub prefix: String,
    pub sig: Signature,
    pub block: String,
}

/// An item of source code: a function, or something else, as source text.
#[derive(Debug)]
pub enum Item {
    Fn(ItemFn),
    Other(String),
}

/// Whether the parameter is the receiver of a method.
pub open spec fn is_receiver(arg: FnArg) -> bool {
    arg is Receiver
}

/// Whether a receiver stands among the parameters.
pub open spec fn has_receiver(inputs: Seq<FnArg>) -> bool {
    exists|i: int| 0 <= i < inputs.len() && is_receiver(#[trigger] inputs[i])
}

/// The pattern of a parameter.
pub open spec fn pat_of(arg: FnArg) -> Seq<char> {
    match arg {
        FnArg::Typed(p) => p.pat@,
        FnArg::Receiver(r) => r@,
    }
}

/// The type of a parameter.
pub open spec fn ty_of(arg: FnArg) -> Seq<char> {
    match arg {
        FnArg::Typed(p) => p.ty@,
        FnArg::Receiver(_) => Seq::empty(),
    }
}

/// What a parameter is, in plain values: whether it is a receiver, its
/// pattern (for a receiver, its text) and its type.
pub open spec fn arg_view(arg: FnArg) -> (bool, Seq<char>, Seq<char>) {
    (arg is Receiver, pat_of(arg), ty_of(arg))
}

/// What the parameters are, in order.
pub open spec fn args_view(inputs: Seq<FnArg>) -> Seq<(bool, Seq<char>, Seq<char>)> {
    Seq::new(inputs.len(), |i: int| arg_view(inputs[i]))
}

/// A parameter as it stands in a signature: the pattern, a colon and the
/// type; a receiver as it is.
pub open spec fn arg_text_of(arg: (bool, Seq<char>, Seq<char>)) -> Seq<char> {
    if arg.0 {
        arg.1
    } else {
        arg.1 + ": "@ + arg.2
    }
}

/// The parameters as they stand between the parentheses of a signature.
pub open spec fn params_text_of(args: Seq<(bool, Seq<char>, Seq<char>)>) -> Seq<char> {
    join_spec(Seq::new(args.len(), |i: int| arg_text_of(args[i])), ", "@)
}

/// The result type of a function: the unit type where none is written.
pub open spec fn result_type_spec(output: Option<String>) -> Seq<char> {
    match output {
        Some(t) => t@,
        None => "()"@,
    }
}

/// The result of a function as it stands in a signature.
pub open spec fn output_text(output: Option<String>) -> Seq<char> {
    match output {
        Some(t) => " -> "@ + t@,
        None => ""@,
    }
}

/// `async ` where the function is asynchronous.
pub open spec fn async_text(asyncness: bool) -> Seq<char> {
    if asyncness {
        "async "@
    } else {
        ""@
    }
}

/// A signature as source text, from its parts.
pub open spec fn signature_text_of(
    asyncness: bool,
    ident: Seq<char>,
    generics: Seq<char>,
    args: Seq<(bool, Seq<char>, Seq<char>)>,
    output: Seq<char>,
    where_clause: Seq<char>,
) -> Seq<char> {
    async_text(asyncness) + "fn "@ + ident + generics + "("@ + params_text_of(args) + ")"@ + output
        + " "@ + where_clause
}

/// The signature as source text.
pub open spec fn signature_text(sig: Signature) -> Seq<char> {
    signature_text_of(
        sig.asyncness,
        sig.ident@,
        sig.generics@,
        args_view(sig.inputs@),
        output_text(sig.output),
        sig.where_clause@,
    )
}

/// A function as source text, from what stands before its signature, its
/// signature and its body.
pub open spec fn item_text_of(prefix: Seq<char>, signature: Seq<char>, block: Seq<char>) -> Seq<
    char,
> {
    prefix + " "@ + signature + " "@ + block
}

/// The function as source text.
pub open spec fn item_text(item: ItemFn) -> Seq<char> {
    item_text_of(item.prefix@, signature_text(item.sig), item.block@)
}

/// The function that the item is. An item that is no function is refused.
pub fn get_fn_item(item: Item) -> (r: DistributionResult<ItemFn>)
    ensures
        match r {
            Ok(f) => item == Item::Fn(f),
            Err(e) => item is Other && e matches DistributionError::BuildStep(_),
        },
{
    match item {
        Item::Fn(f) => Ok(f),
        Item::Other(_) => Err(
            DistributionError::BuildStep(String::from_str("the item is not a function")),
        ),
    }
}

/// The signature of the function that the item is. An item that is no
/// function is refused.
pub fn get_fn_signature(item: Item) -> (r: DistributionResult<Signature>)
    ensures
        match r {
            Ok(sig) => item matches Item::Fn(f) && f.sig == sig,
            Err(e) => item is Other && e matches DistributionError::BuildStep(_),
        },
{
    match item {
        Item::Fn(f) => Ok(f.sig),
        Item::Other(_) => Err(
            DistributionError::BuildStep(String::from_str("the item is not a function")),
        ),
    }
}

/// Whether a receiver stands among the parameters.
pub fn contains_receiver(typed_params: &Vec<FnArg>) -> (b: bool)
    ensures
        b == has_receiver(typed_params@),
{
    let mut i: usize = 0;
    while i < typed_params.len()
        invariant
            i <= typed_params.len(),
            forall|j: int| 0 <= j < i ==> !is_receiver(#[trigger] typed_params[j]),
        decreases typed_params.len() - i,
    {
        match &typed_params[i] {
            FnArg::Receiver(_) => {
                return true;
            },
            FnArg::Typed(_) => {},
        }
        i += 1;
    }
    false
}

/// The patterns of the parameters, in the order of their declaration. No
/// receiver stands among them: a method has no service.
pub fn to_untyped_params(typed_params: &Vec<FnArg>) -> (pats: Vec<String>)
    requires
        !has_receiver(typed_params@),
    ensures
        views(pats@) == Seq::new(typed_params.len() as nat, |i: int| pat_of(typed_params[i])),
{
    let mut pats: Vec<String> = Vec::new();
    let mut i: usize = 0;
    while i < typed_params.len()
        invariant
            i <= typed_params.len(),
            pats.len() == i,
            !has_receiver(typed_params@),
            forall|j: int| 0 <= j < i ==> (#[trigger] pats[j])@ == pat_of(typed_params[j]),
        decreases typed_params.len() - i,
    {
        assert(!is_receiver(typed_params[i as int]));
        match &typed_params[i] {
            FnArg::Receiver(text) => {
                pats.push(text.clone());
            },
            FnArg::Typed(p) => {
                pats.push(p.pat.clone());
            },
        }
        i += 1;
    }
    assert(views(pats@) =~= Seq::new(
        typed_params.len() as nat,
        |i: int| pat_of(typed_params[i]),
    ));
    pats
}

/// The types of the parameters, in the order of their declaration. No
/// receiver stands among them.
pub fn to_param_types(typed_params: &Vec<FnArg>) -> (types: Vec<String>)
    requires
        !has_receiver(typed_params@),
    ensures
        views(types@) == Seq::new(typed_params.len() as nat, |i: int| ty_of(typed_params[i])),
{
    let mut types: Vec<String> = Vec::new();
    let mut i: usize = 0;
    while i < typed_params.len()
        invariant
            i <= typed_params.len(),
            types.len() == i,
            !has_receiver(typed_params@),
            forall|j: int| 0 <= j < i ==> (#[trigger] types[j])@ == ty_of(typed_params[j]),
        decreases typed_params.len() - i,
    {
        assert(!is_receiver(typed_params[i as int]));
        match &typed_params[i] {
            FnArg::Receiver(_) => {
                types.push(String::new());
            },
            FnArg::Typed(p) => {
                types.push(p.ty.clone());
            },
        }
        i += 1;
    }
    assert(views(types@) =~= Seq::new(
        typed_params.len() as nat,
        |i: int| ty_of(typed_params[i]),
    ));
    types
}

/// The parameters as the segments of a route: `{a}/{b}/{c}`.
pub fn to_path_params(untyped_params: &Vec<String>) -> (r: String)
    ensures
        r@ == join_spec(wrap_each(views(untyped_params@), "{"@, "}"@), "/"@),
{
    join_wrapped(untyped_params, "{", "}", "/")
}

/// Source text of the vector of the arguments' JSON texts: each parameter is
/// serialized, in the order of the parameters.
pub fn params_json_vec(untyped_params: &Vec<String>) -> (r: String)
    ensures
        r@ == "vec!["@ + join_spec(
            wrap_each(
                views(untyped_params@),
                "turbolift::serde_json::to_string(&"@,
                ").unwrap()"@,
            ),
            ", "@,
        ) + "]"@,
{
    let inner = join_wrapped(
        untyped_params,
        "turbolift::serde_json::to_string(&",
        ").unwrap()",
        ", ",
    );
    concat3("vec![", inner.as_str(), "]")
}

/// The fields `path.0`, `path.1` and so on, the first `count` of them.
pub open spec fn path_fields_spec(count: nat) -> Seq<Seq<char>> {
    Seq::new(count, |i: int| "path."@ + decimal_spec(i as nat))
}

/// Source text that takes the parameters out of the route's tuple:
/// `path.0, path.1` and so on, one field for each parameter.
pub fn unpack_path_params(untyped_params: &Vec<String>) -> (r: String)
    ensures
        r@ == join_spec(path_fields_spec(untyped_params.len() as nat), ", "@),
{
    let n = untyped_params.len();
    let mut fields: Vec<String> = Vec::new();
    let mut i: usize = 0;
    while i < n
        invariant
            i <= n,
            fields.len() == i,
            forall|j: int| 0 <= j < i ==> (#[trigger] fields[j])@ == "path."@ + decimal_spec(j as nat),
        decreases n - i,
    {
        let number = decimal(i as u128);
        fields.push(concat2("path.", number.as_str()));
        i += 1;
    }
    assert(views(fields@) =~= path_fields_spec(n as nat));
    join(&fields, ", ")
}

/// The result type of a function: the unit type where none is written.
pub fn get_result_type(output: &Option<String>) -> (r: String)
    ensures
        r@ == result_type_spec(*output),
{
    match output {
        Some(t) => t.clone(),
        None => String::from_str("()"),
    }
}

/// The vector literal of the bytes: `vec![1,2,3]`.
pub fn bin_vector_to_literal_tokens(vector: &Vec<u8>) -> (r: String)
    ensures
        r@ == "vec!["@ + join_spec(
            Seq::new(vector.len() as nat, |i: int| decimal_spec(vector[i] as nat)),
            ","@,
        ) + "]"@,
{
    let mut numbers: Vec<String> = Vec::new();
    let mut i: usize = 0;
    while i < vector.len()
        invariant
            i <= vector.len(),
            numbers.len() == i,
            forall|j: int| 0 <= j < i ==> (#[trigger] numbers[j])@ == decimal_spec(vector[j] as nat),
        decreases vector.len() - i,
    {
        numbers.push(decimal(vector[i] as u128));
        i += 1;
    }
    assert(views(numbers@) =~= Seq::new(
        vector.len() as nat,
        |i: int| decimal_spec(vector[i] as nat),
    ));
    let inner = join(&numbers, ",");
    concat3("vec![", inner.as_str(), "]")
}

/// The result type of the forwarder of a function with the result `output`:
/// the function's result inside the result of a distributed call, the unit
/// type standing for a result that is not written.
pub open spec fn dummy_output_spec(output: Option<String>) -> Seq<char> {
    "turbolift::DistributionResult<"@ + result_type_spec(output) + ">"@
}

/// The body of the forwarder: the call of `redirect_fn_name` on the
/// parameters, wrapped in `Ok`.
pub open spec fn dummy_block_spec(redirect_fn_name: Seq<char>, untyped_params: Seq<Seq<char>>) -> Seq<
    char,
> {
    "{ return Ok("@ + redirect_fn_name + "("@ + join_spec(untyped_params, ", "@) + ")); }"@
}

/// A copy of the parameters.
pub fn clone_args(inputs: &Vec<FnArg>) -> (r: Vec<FnArg>)
    ensures
        args_view(r@) == args_view(inputs@),
        r.len() == inputs.len(),
{
    let mut r: Vec<FnArg> = Vec::new();
    let mut i: usize = 0;
    while i < inputs.len()
        invariant
            i <= inputs.len(),
            r.len() == i,
            forall|j: int| 0 <= j < i ==> arg_view(#[trigger] r[j]) == arg_view(inputs[j]),
        decreases inputs.len() - i,
    {
        let copy = match &inputs[i] {
            FnArg::Receiver(text) => FnArg::Receiver(text.clone()),
            FnArg::Typed(p) => FnArg::Typed(PatType { pat: p.pat.clone(), ty: p.ty.clone() }),
        };
        r.push(copy);
        i += 1;
    }
    r
}

/// The forwarder of a function: a function of the same name and parameters
/// that is asynchronous, calls `redirect_fn_name` on its parameters and
/// gives the result as that of a distributed call. Code that calls the
/// function by its name compiles against the forwarder once the function
/// itself has moved.
pub fn make_dummy_function(
    function: &ItemFn,
    redirect_fn_name: &str,
    untyped_params: &Vec<String>,
) -> (dummy: ItemFn)
    ensures
        dummy.prefix@ == function.prefix@,
        dummy.sig.asyncness,
        dummy.sig.ident@ == function.sig.ident@,
        dummy.sig.generics@ == function.sig.generics@,
        args_view(dummy.sig.inputs@) == args_view(function.sig.inputs@),
        dummy.sig.output matches Some(t) && t@ == dummy_output_spec(function.sig.output),
        dummy.sig.where_clause@ == function.sig.where_clause@,
        dummy.block@ == dummy_block_spec(redirect_fn_name@, views(untyped_params@)),
{
    let params = join(untyped_params, ", ");
    let mut block = String::from_str("{ return Ok(");
    block.append(redirect_fn_name);
    block.append("(");
    block.append(params.as_str());
    block.append(")); }");
    let result_type = get_result_type(&function.sig.output);
    let output = concat3("turbolift::DistributionResult<", result_type.as_str(), ">");
    ItemFn {
        prefix: function.prefix.clone(),
        sig: Signature {
            asyncness: true,
            ident: function.sig.ident.clone(),
            generics: function.sig.generics.clone(),
            inputs: clone_args(&function.sig.inputs),
            output: Some(output),
            where_clause: function.sig.where_clause.clone(),
        },
        block,
    }
}

/// The parameters as they stand between the parentheses of a signature.
pub fn render_params(inputs: &Vec<FnArg>) -> (r: String)
    ensures
        r@ == params_text_of(args_view(inputs@)),
{
    let mut texts: Vec<String> = Vec::new();
    let mut i: usize = 0;
    while i < inputs.len()
        invariant
            i <= inputs.len(),
            texts.len() == i,
            forall|j: int| 0 <= j < i ==> (#[trigger] texts[j])@ == arg_text_of(arg_view(inputs[j])),
        decreases inputs.len() - i,
    {
        let text = match &inputs[i] {
            FnArg::Receiver(r) => r.clone(),
            FnArg::Typed(p) => concat3(p.pat.as_str(), ": ", p.ty.as_str()),
        };
        texts.push(text);
        i += 1;
    }
    assert(views(texts@) =~= Seq::new(
        args_view(inputs@).len(),
        |i: int| arg_text_of(args_view(inputs@)[i]),
    ));
    join(&texts, ", ")
}

/// The signature as source text.
pub fn render_signature(sig: &Signature) -> (r: String)
    ensures
        r@ == signature_text(*sig),
{
    let params = render_params(&sig.inputs);
    let mut r = String::from_str(if sig.asyncness { "async " } else { "" });
    r.append("fn ");
    r.append(sig.ident.as_str());
    r.append(sig.generics.as_str());
    r.append("(");
    r.append(params.as_str());
    r.append(")");
    match &sig.output {
        Some(t) => {
            let out = concat2(" -> ", t.as_str());
            r.append(out.as_str());
        },
        None => {
            r.append("");
        },
    }
    r.append(" ");
    r.append(sig.where_clause.as_str());
    r
}

/// The function as source text.
pub fn render_item(item: &ItemFn) -> (r: String)
    ensures
        r@ == item_text(*item),
{
    let sig = render_signature(&item.sig);
    let mut r = item.prefix.clone();
    r.append(" ");
    r.append(sig.as_str());
    r.append(" ");
    r.append(item.block.as_str());
    r
}

/// Where the entry point of a program stands in its file: the position of
/// the name `main` in the entry point's signature. Lines are counted from 1,
/// columns from 0, in characters.
#[derive(Debug, Clone, Copy)]
pub struct EntryPoint {
    pub line: usize,
    pub column: usize,
}

/// Whether the lines `first` to `last`, counted from 1, lie within a file of
/// `count` lines.
pub open spec fn span_within(count: nat, first: nat, last: nat) -> bool {
    1 <= first <= last <= count
}

/// Whether the name `main` stands at the given position of the lines.
pub open spec fn main_stands_at(lines: Seq<Seq<char>>, line: nat, column: nat) -> bool {
    &&& 1 <= line <= lines.len()
    &&& column + 4 <= lines[line - 1].len()
    &&& lines[line - 1].subrange(column as int, column as int + 4) == "main"@
}

/// Whether the entry point, if there is one, stands where it is said to.
pub open spec fn entry_point_found(lines: Seq<Seq<char>>, entry_point: Option<EntryPoint>) -> bool {
    match entry_point {
        Some(at) => main_stands_at(lines, at.line as nat, at.column as nat),
        None => true,
    }
}

/// `line` with the four characters from `column` on replaced by the private
/// name `_super_main`.
pub open spec fn renamed_line(line: Seq<char>, column: int) -> Seq<char> {
    line.take(column) + "_super_main"@ + line.skip(column + 4)
}

/// The lines with the entry point, if there is one, renamed: its line holds
/// `_super_main` where it held `main`, and every other line is as it was.
pub open spec fn with_entry_renamed(lines: Seq<Seq<char>>, entry_point: Option<EntryPoint>) -> Seq<
    Seq<char>,
> {
    match entry_point {
        Some(at) => Seq::new(
            lines.len(),
            |i: int|
                if i == at.line - 1 {
                    renamed_line(lines[i], at.column as int)
                } else {
                    lines[i]
                },
        ),
        None => lines,
    }
}

/// The lines without those from `first` to `last`, counted from 1.
pub open spec fn without_span(lines: Seq<Seq<char>>, first: int, last: int) -> Seq<Seq<char>> {
    lines.take(first - 1) + lines.skip(last)
}

/// The source file without the lines `first` to `last`, and with its entry
/// point renamed to a private function.
pub open spec fn sanitized_spec(
    contents: Seq<char>,
    first: int,
    last: int,
    entry_point: Option<EntryPoint>,
) -> Seq<char> {
    join_spec(
        without_span(with_entry_renamed(lines_spec(contents), entry_point), first, last),
        "\n"@,
    )
}

/// The line at `index`, with the entry point renamed where it stands there.
pub fn sanitized_line(lines: &Vec<Vec<char>>, index: usize, entry_point: &Option<EntryPoint>) -> (r:
    Vec<char>)
    requires
        index < lines.len(),
        entry_point_found(rows(lines@), *entry_point),
    ensures
        r@ == with_entry_renamed(rows(lines@), *entry_point)[index as int],
{
    let line = &lines[index];
    match entry_point {
        Some(at) => {
            if at.line - 1 == index {
                let name = to_chars("_super_main");
                let mut r: Vec<char> = Vec::new();
                let mut i: usize = 0;
                while i < at.column
                    invariant
                        i <= at.column <= line.len(),
                        r@ == line@.take(i as int),
                    decreases at.column - i,
                {
                    r.push(line[i]);
                    i += 1;
                }
                crate::text::push_all(&mut r, &name);
                let mut k: usize = at.column + 4;
                while k < line.len()
                    invariant
                        at.column + 4 <= k <= line.len(),
                        r@ == line@.take(at.column as int) + name@ + line@.subrange(
                            at.column + 4,
                            k as int,
                        ),
                    decreases line.len() - k,
                {
                    r.push(line[k]);
                    k += 1;
                }
                assert(line@.subrange(at.column + 4, line.len() as int) =~= line@.skip(
                    at.column + 4,
                ));
                r
            } else {
                line.clone()
            }
        },
        None => line.clone(),
    }
}

/// The source context of a marked function: its file without the function
/// and without a public entry point. The function stands, with the attribute
/// that marks it, on the lines `first_line` to `last_line`, counted from 1.
/// Exactly those lines are removed. Where the file has an entry point, the
/// name `main` in its signature is replaced by a private name, so that the
/// service can have an entry point of its own. Every other line is kept as
/// it is, in order.
///
/// A span that does not lie within the file is refused, and so is an entry
/// point at whose position the name `main` does not stand.
pub fn get_sanitized_file(
    file_contents: &str,
    first_line: usize,
    last_line: usize,
    entry_point: Option<EntryPoint>,
) -> (r: DistributionResult<String>)
    ensures
        match r {
            Ok(text) => {
                &&& span_within(
                    lines_spec(file_contents@).len(),
                    first_line as nat,
                    last_line as nat,
                )
                &&& entry_point_found(lines_spec(file_contents@), entry_point)
                &&& text@ == sanitized_spec(
                    file_contents@,
                    first_line as int,
                    last_line as int,
                    entry_point,
                )
            },
            Err(e) => if span_within(
                lines_spec(file_contents@).len(),
                first_line as nat,
                last_line as nat,
            ) {
                &&& !entry_point_found(lines_spec(file_contents@), entry_point)
                &&& e == DistributionError::EntryPoint
            } else {
                e == DistributionError::SpanOutOfRange
            },
        },
{
    let chars = to_chars(file_contents);
    let lines = split_lines(&chars);
    if first_line < 1 || first_line > last_line || last_line > lines.len() {
        return Err(DistributionError::SpanOutOfRange);
    }
    match &entry_point {
        Some(at) => {
            if at.line < 1 || at.line > lines.len() {
                return Err(DistributionError::EntryPoint);
            }
            let line = &lines[at.line - 1];
            if at.column > line.len() || line.len() - at.column < 4 {
                return Err(DistributionError::EntryPoint);
            }
            let name = to_chars("main");
            proof {
                reveal_strlit("main");
            }
            if !crate::text::matches_at(line, at.column, &name) {
                return Err(DistributionError::EntryPoint);
            }
        },
        None => {},
    }
    let ghost all = with_entry_renamed(lines_spec(file_contents@), entry_point);
    let start: usize = first_line - 1;
    let end = last_line;
    let mut kept: Vec<Vec<char>> = Vec::new();
    let mut i: usize = 0;
    while i < start
        invariant
            i <= start <= end <= lines.len(),
            rows(lines@) == lines_spec(file_contents@),
            entry_point_found(rows(lines@), entry_point),
            all == with_entry_renamed(rows(lines@), entry_point),
            all.len() == lines.len(),
            rows(kept@) == all.take(i as int),
        decreases start - i,
    {
        kept.push(sanitized_line(&lines, i, &entry_point));
        assert(rows(kept@) =~= all.take(i as int).push(all[i as int]));
        i += 1;
    }
    let mut j: usize = end;
    assert(all.take(start as int) + all.skip(end as int).take(0) =~= all.take(start as int));
    while j < lines.len()
        invariant
            start <= end <= j <= lines.len(),
            rows(lines@) == lines_spec(file_contents@),
            entry_point_found(rows(lines@), entry_point),
            all == with_entry_renamed(rows(lines@), entry_point),
            all.len() == lines.len(),
            rows(kept@) == all.take(start as int) + all.skip(end as int).take(j - end),
        decreases lines.len() - j,
    {
        kept.push(sanitized_line(&lines, j, &entry_point));
        assert(rows(kept@) =~= (all.take(start as int) + all.skip(end as int).take(j - end)).push(
            all[j as int],
        ));
        assert(all.skip(end as int).take(j + 1 - end) =~= all.skip(end as int).take(j - end).push(
            all[j as int],
        ));
        j += 1;
    }
    assert(all.skip(end as int).take(lines.len() - end) =~= all.skip(end as int));
    let newline = to_chars("\n");
    let joined = join_rows(&kept, &newline);
    Ok(from_chars(&joined))
}

/// Nothing else is removed or changed: a line before the span stands in the
/// sanitized file at its place, a line after the span stands as many places
/// earlier as the span has lines, and each is as it was in the file unless
/// it holds the entry point.
pub proof fn lemma_other_lines_are_kept(
    lines: Seq<Seq<char>>,
    first: nat,
    last: nat,
    entry_point: Option<EntryPoint>,
    index: int,
)
    requires
        span_within(lines.len(), first, last),
        0 <= index < lines.len(),
        index < first - 1 || last <= index,
    ensures
        ({
            let kept = without_span(
                with_entry_renamed(lines, entry_point),
                first as int,
                last as int,
            );
            let place = if index < first - 1 {
                index
            } else {
                index - (last - first + 1)
            };
            &&& kept.len() == lines.len() - (last - first + 1)
            &&& 0 <= place < kept.len()
            &&& kept[place] == with_entry_renamed(lines, entry_point)[index]
            &&& (entry_point is None || entry_point->0.line - 1 != index) ==> kept[place]
                == lines[index]
        }),
{
    let renamed = with_entry_renamed(lines, entry_point);
    assert(renamed.len() == lines.len());
    let kept = without_span(renamed, first as int, last as int);
    assert(kept.len() == lines.len() - (last - first + 1));
    if index < first - 1 {
        assert(kept[index] == renamed[index]);
    } else {
        assert(kept[index - (last - first + 1)] == renamed.skip(last as int)[index - last]);
    }
}

/// An entry of the derived project: the components of its path below the
/// project directory, whether it is a directory, and the contents of a file.
#[derive(Debug)]
pub struct SourceEntry {
    pub path: Vec<String>,
    pub is_dir: bool,
    pub data: Vec<u8>,
}

/// Permission bits of a file in the bundle.
pub const MODE_FILE: u32 = 0o644;

/// Permission bits of a directory in the bundle.
pub const MODE_DIR: u32 = 0o755;

/// The names that the bundle leaves out: build output, version control and
/// the cache directory.
pub open spec fn ignored_spec() -> Seq<Seq<char>> {
    seq!["target"@, ".git"@, ".turbolift"@]
}

/// Whether the entry at `path` stays out of the bundle: one of the components
/// of its path is an ignored name.
pub open spec fn is_ignored(path: Seq<Seq<char>>) -> bool {
    is_excluded(path, Seq::empty(), ignored_spec())
}

/// The path of an entry inside the bundle: the name of the project
/// directory and the components of the entry's path, with `/` between them.
pub open spec fn bundle_path(dir_name: Seq<char>, path: Seq<Seq<char>>) -> Seq<char> {
    join_spec(seq![dir_name] + path, seq!['/'])
}

/// The entry of the bundle's top directory.
pub open spec fn top_item(dir_name: Seq<char>) -> ArchiveItem {
    (dir_name, KIND_DIR, MODE_DIR, Seq::empty())
}

/// An entry as it stands in the bundle.
pub open spec fn bundle_item(dir_name: Seq<char>, entry: SourceEntry) -> ArchiveItem {
    if entry.is_dir {
        (bundle_path(dir_name, views(entry.path@)), KIND_DIR, MODE_DIR, Seq::empty())
    } else {
        (bundle_path(dir_name, views(entry.path@)), KIND_FILE, MODE_FILE, entry.data@)
    }
}

/// The entries of the bundle: the top directory, named after the project
/// directory, then every entry that is not ignored, in the given order.
pub open spec fn bundle_plan(dir_name: Seq<char>, entries: Seq<SourceEntry>) -> Seq<ArchiveItem>
    decreases entries.len(),
{
    if entries.len() == 0 {
        seq![top_item(dir_name)]
    } else {
        let before = bundle_plan(dir_name, entries.drop_last());
        if is_ignored(views(entries.last().path@)) {
            before
        } else {
            before.push(bundle_item(dir_name, entries.last()))
        }
    }
}

/// Whether the path has a component, and each is a portable name.
pub open spec fn portable_components(path: Seq<Seq<char>>) -> bool {
    path.len() > 0 && forall|i: int| 0 <= i < path.len() ==> portable_name(#[trigger] path[i])
}

/// Whether the name of the project directory and the path of every entry
/// that is not ignored can stand in a bundle.
pub open spec fn bundle_names_valid(dir_name: Seq<char>, entries: Seq<SourceEntry>) -> bool {
    &&& portable_top(dir_name)
    &&& forall|i: int|
        0 <= i < entries.len() && !is_ignored(views((#[trigger] entries[i]).path@))
            ==> portable_components(views(entries[i].path@))
}

/// Whether `bytes` is the bundle of the project directory `dir_name` with
/// the entries `entries`.
pub open spec fn is_bundle_of(bytes: Seq<u8>, dir_name: Seq<char>, entries: Seq<SourceEntry>) -> bool {
    &&& bundle_names_valid(dir_name, entries)
    &&& bytes == tar_image(bundle_plan(dir_name, canonical(entries)))
}

/// Packaging is a function of the project: two bundles of the same project
/// directory with the same entries are the same bytes.
pub proof fn lemma_bundle_deterministic(
    first: Seq<u8>,
    second: Seq<u8>,
    dir_name: Seq<char>,
    entries: Seq<SourceEntry>,
)
    requires
        is_bundle_of(first, dir_name, entries),
        is_bundle_of(second, dir_name, entries),
    ensures
        first == second,
{
}

/// Ignored entries leave no trace in the bundle: with or without an entry
/// at an ignored path, the entries of the bundle are the same.
pub proof fn lemma_ignored_entry_is_skipped(
    dir_name: Seq<char>,
    entries: Seq<SourceEntry>,
    extra: SourceEntry,
)
    requires
        is_ignored(views(extra.path@)),
    ensures
        bundle_plan(dir_name, entries.push(extra)) == bundle_plan(dir_name, entries),
{
    assert(entries.push(extra).drop_last() =~= entries);
}

/// The names that the bundle leaves out.
pub fn ignored_names() -> (names: Vec<String>)
    ensures
        views(names@) == ignored_spec(),
{
    let mut names: Vec<String> = Vec::new();
    names.push(String::from_str("target"));
    names.push(String::from_str(".git"));
    names.push(String::from_str(".turbolift"));
    names
}

/// The first component of `path` that is no portable name, if there is one.
pub fn find_unportable(path: &Vec<String>) -> (r: Option<usize>)
    ensures
        match r {
            Some(i) => i < path.len() && !portable_name(path[i as int]@),
            None => forall|i: int| 0 <= i < path.len() ==> portable_name(#[trigger] views(path@)[i]),
        },
{
    let mut i: usize = 0;
    while i < path.len()
        invariant
            i <= path.len(),
            forall|j: int| 0 <= j < i ==> portable_name(#[trigger] views(path@)[j]),
        decreases path.len() - i,
    {
        if !is_portable_name(path[i].as_str()) {
            return Some(i);
        }
        i += 1;
    }
    None
}

/// An entry of a bundle: its path inside the bundle, the byte of its type,
/// its permission bits and its contents.
#[derive(Debug)]
pub struct BundleItem {
    pub path: String,
    pub kind: u8,
    pub mode: u32,
    pub data: Vec<u8>,
}

/// The entries, each in plain values.
pub open spec fn items_view(items: Seq<BundleItem>) -> Seq<ArchiveItem> {
    Seq::new(items.len(), |i: int| (items[i].path@, items[i].kind, items[i].mode, items[i].data@))
}

/// The entries that the references lead to.
pub open spec fn derefs(listing: Seq<&SourceEntry>) -> Seq<SourceEntry> {
    Seq::new(listing.len(), |i: int| *listing[i])
}

/// Where `entry` is put into a listing that is in order: before the entries
/// at the end of the listing that it comes before.
pub open spec fn insert_position(sorted: Seq<SourceEntry>, entry: SourceEntry) -> nat
    decreases sorted.len(),
{
    if sorted.len() > 0 && path_before(views(entry.path@), views(sorted.last().path@)) {
        insert_position(sorted.drop_last(), entry)
    } else {
        sorted.len()
    }
}

/// The entries in the order of their paths, a directory before what it
/// holds: each entry is put, one after the other, into the listing of those
/// before it. Entries of one path keep the order in which they are given.
pub open spec fn canonical(entries: Seq<SourceEntry>) -> Seq<SourceEntry>
    decreases entries.len(),
{
    if entries.len() == 0 {
        Seq::empty()
    } else {
        let before = canonical(entries.drop_last());
        before.insert(insert_position(before, entries.last()) as int, entries.last())
    }
}

/// Whether no entry of the listing comes before an entry that stands before
/// it.
pub open spec fn in_path_order(listing: Seq<SourceEntry>) -> bool {
    forall|i: int, j: int|
        0 <= i < j < listing.len() ==> !path_before(
            views((#[trigger] listing[j]).path@),
            views((#[trigger] listing[i]).path@),
        )
}

/// The place of an entry in a listing: the entry comes before every entry
/// from its place on, and before none that stands directly before its place.
pub proof fn lemma_insert_position(sorted: Seq<SourceEntry>, entry: SourceEntry)
    ensures
        insert_position(sorted, entry) <= sorted.len(),
        forall|k: int|
            insert_position(sorted, entry) <= k < sorted.len() ==> path_before(
                views(entry.path@),
                views((#[trigger] sorted[k]).path@),
            ),
        insert_position(sorted, entry) > 0 ==> !path_before(
            views(entry.path@),
            views(sorted[insert_position(sorted, entry) - 1].path@),
        ),
    decreases sorted.len(),
{
    if sorted.len() > 0 && path_before(views(entry.path@), views(sorted.last().path@)) {
        lemma_insert_position(sorted.drop_last(), entry);
        let p = insert_position(sorted.drop_last(), entry);
        assert forall|k: int| p <= k < sorted.len() implies path_before(
            views(entry.path@),
            views((#[trigger] sorted[k]).path@),
        ) by {
            if k < sorted.len() - 1 {
                assert(sorted.drop_last()[k] == sorted[k]);
            }
        }
        if p > 0 {
            assert(sorted.drop_last()[p - 1] == sorted[p - 1]);
        }
    }
}

/// The canonical listing is in the order of the paths.
pub proof fn lemma_canonical_in_order(entries: Seq<SourceEntry>)
    ensures
        canonical(entries).len() == entries.len(),
        in_path_order(canonical(entries)),
    decreases entries.len(),
{
    if entries.len() > 0 {
        let before = canonical(entries.drop_last());
        let last = entries.last();
        let p = insert_position(before, last) as int;
        let now = canonical(entries);
        lemma_canonical_in_order(entries.drop_last());
        lemma_insert_position(before, last);
        assert forall|i: int, j: int| 0 <= i < j < now.len() implies !path_before(
            views((#[trigger] now[j]).path@),
            views((#[trigger] now[i]).path@),
        ) by {
            let own = views(last.path@);
            if j == p {
                // what stands before the place does not come after the entry
                assert(now[i] == before[i]);
                if i < p - 1 {
                    assert(!path_before(views(before[p - 1].path@), views(before[i].path@)));
                }
                lemma_path_order(own, views(before[p - 1].path@), views(before[i].path@));
            } else if i == p {
                assert(now[j] == before[j - 1]);
                lemma_path_order(own, views(before[j - 1].path@), own);
            } else {
                let bi = if i < p {
                    i
                } else {
                    i - 1
                };
                let bj = if j < p {
                    j
                } else {
                    j - 1
                };
                assert(now[i] == before[bi] && now[j] == before[bj]);
            }
        }
    }
}

/// The canonical listing holds the entries that it is made of, each as often
/// as it is given, and nothing else.
pub proof fn lemma_canonical_same_entries(entries: Seq<SourceEntry>)
    ensures
        canonical(entries).to_multiset() == entries.to_multiset(),
    decreases entries.len(),
{
    if entries.len() > 0 {
        let before = canonical(entries.drop_last());
        let last = entries.last();
        lemma_canonical_same_entries(entries.drop_last());
        lemma_insert_position(before, last);
        vstd::seq_lib::to_multiset_insert(before, insert_position(before, last) as int, last);
        vstd::seq_lib::to_multiset_build(entries.drop_last(), last);
        assert(entries.drop_last().push(last) =~= entries);
    } else {
        assert(canonical(entries) =~= entries);
    }
}

/// Listings of the same entries are valid together: whether the names can
/// stand in a bundle does not depend on the order of the listing.
pub proof fn lemma_valid_in_any_order(
    dir_name: Seq<char>,
    first: Seq<SourceEntry>,
    second: Seq<SourceEntry>,
)
    requires
        first.to_multiset() == second.to_multiset(),
        bundle_names_valid(dir_name, first),
    ensures
        bundle_names_valid(dir_name, second),
{
    assert forall|i: int|
        0 <= i < second.len() && !is_ignored(
            views((#[trigger] second[i]).path@),
        ) implies portable_components(views(second[i].path@)) by {
        let entry = second[i];
        assert(second.contains(entry));
        vstd::seq_lib::to_multiset_contains(second, entry);
        vstd::seq_lib::to_multiset_contains(first, entry);
        let j = choose|j: int| 0 <= j < first.len() && first[j] == entry;
        assert(first[j] == entry);
    }
}

/// Whether no two entries of the listing have the same path.
pub open spec fn distinct_paths(listing: Seq<SourceEntry>) -> bool {
    forall|i: int, j: int|
        0 <= i < j < listing.len() ==> views((#[trigger] listing[i]).path@) != views(
            (#[trigger] listing[j]).path@,
        )
}

/// Listings of the same entries have distinct paths together.
pub proof fn lemma_distinct_in_any_order(first: Seq<SourceEntry>, second: Seq<SourceEntry>)
    requires
        first.to_multiset() == second.to_multiset(),
        distinct_paths(first),
    ensures
        distinct_paths(second),
        second.len() == first.len(),
{
    assert(first.no_duplicates()) by {
        assert forall|i: int, j: int|
            0 <= i < first.len() && 0 <= j < first.len() && i != j implies first[i]
            != first[j] by {
            if i < j {
                assert(views(first[i].path@) != views(first[j].path@));
            } else {
                assert(views(first[j].path@) != views(first[i].path@));
            }
        }
    }
    first.lemma_multiset_has_no_duplicates();
    second.lemma_multiset_has_no_duplicates_conv();
    vstd::seq_lib::to_multiset_len(first);
    vstd::seq_lib::to_multiset_len(second);
    assert forall|i: int, j: int| 0 <= i < j < second.len() implies views(
        (#[trigger] second[i]).path@,
    ) != views((#[trigger] second[j]).path@) by {
        let a = second[i];
        let b = second[j];
        assert(a != b);
        assert(second.contains(a) && second.contains(b));
        vstd::seq_lib::to_multiset_contains(second, a);
        vstd::seq_lib::to_multiset_contains(second, b);
        vstd::seq_lib::to_multiset_contains(first, a);
        vstd::seq_lib::to_multiset_contains(first, b);
        let p = choose|p: int| 0 <= p < first.len() && first[p] == a;
        let q = choose|q: int| 0 <= q < first.len() && first[q] == b;
        if p < q {
            assert(views(first[p].path@) != views(first[q].path@));
        } else {
            assert(views(first[q].path@) != views(first[p].path@));
        }
    }
}

/// There is one listing of given entries in the order of their paths: two
/// listings of the same entries, with distinct paths, that are both in
/// order are the same listing.
pub proof fn lemma_ordered_listing_unique(first: Seq<SourceEntry>, second: Seq<SourceEntry>)
    requires
        first.to_multiset() == second.to_multiset(),
        in_path_order(first),
        in_path_order(second),
        distinct_paths(first),
        distinct_paths(second),
    ensures
        first == second,
    decreases first.len(),
{
    vstd::seq_lib::to_multiset_len(first);
    vstd::seq_lib::to_multiset_len(second);
    if first.len() == 0 {
        assert(first =~= second);
    } else {
        let n = first.len() as int;
        let a = first.last();
        let b = second.last();
        assert(first.contains(a) && second.contains(b));
        vstd::seq_lib::to_multiset_contains(first, a);
        vstd::seq_lib::to_multiset_contains(second, a);
        vstd::seq_lib::to_multiset_contains(first, b);
        vstd::seq_lib::to_multiset_contains(second, b);
        let k = choose|k: int| 0 <= k < second.len() && second[k] == a;
        let m = choose|m: int| 0 <= m < first.len() && first[m] == b;
        if k < n - 1 && m < n - 1 {
            // each of the two last entries would come before the other
            assert(!path_before(views(second[n - 1].path@), views(second[k].path@)));
            assert(views(second[k].path@) != views(second[n - 1].path@));
            assert(!path_before(views(first[n - 1].path@), views(first[m].path@)));
            assert(views(first[m].path@) != views(first[n - 1].path@));
            lemma_path_order(views(a.path@), views(b.path@), views(a.path@));
            lemma_path_order(views(b.path@), views(a.path@), views(b.path@));
        }
        assert(a == b);
        let first_rest = first.drop_last();
        let second_rest = second.drop_last();
        assert(first_rest =~= first.remove(n - 1));
        assert(second_rest =~= second.remove(n - 1));
        vstd::seq_lib::to_multiset_remove(first, n - 1);
        vstd::seq_lib::to_multiset_remove(second, n - 1);
        assert forall|i: int, j: int| 0 <= i < j < first_rest.len() implies !path_before(
            views((#[trigger] first_rest[j]).path@),
            views((#[trigger] first_rest[i]).path@),
        ) && views(first_rest[i].path@) != views(first_rest[j].path@) by {
            assert(first_rest[i] == first[i] && first_rest[j] == first[j]);
        }
        assert forall|i: int, j: int| 0 <= i < j < second_rest.len() implies !path_before(
            views((#[trigger] second_rest[j]).path@),
            views((#[trigger] second_rest[i]).path@),
        ) && views(second_rest[i].path@) != views(second_rest[j].path@) by {
            assert(second_rest[i] == second[i] && second_rest[j] == second[j]);
        }
        lemma_ordered_listing_unique(first_rest, second_rest);
        assert(first =~= first_rest.push(a));
        assert(second =~= second_rest.push(b));
    }
}

/// The bundle of a directory does not depend on the order in which its
/// entries are listed: two listings of the same entries, no two at one path,
/// have the same canonical listing, and so the same bundle.
pub proof fn lemma_bundle_of_any_listing(
    dir_name: Seq<char>,
    first: Seq<SourceEntry>,
    second: Seq<SourceEntry>,
    bytes: Seq<u8>,
)
    requires
        first.to_multiset() == second.to_multiset(),
        distinct_paths(first),
    ensures
        canonical(first) == canonical(second),
        is_bundle_of(bytes, dir_name, first) == is_bundle_of(bytes, dir_name, second),
{
    lemma_canonical_same_entries(first);
    lemma_canonical_same_entries(second);
    lemma_canonical_in_order(first);
    lemma_canonical_in_order(second);
    lemma_distinct_in_any_order(first, canonical(first));
    lemma_distinct_in_any_order(first, canonical(second));
    lemma_ordered_listing_unique(canonical(first), canonical(second));
    if bundle_names_valid(dir_name, first) {
        lemma_valid_in_any_order(dir_name, first, second);
    }
    if bundle_names_valid(dir_name, second) {
        lemma_valid_in_any_order(dir_name, second, first);
    }
}

/// The entries in the order of their paths, a directory before what it
/// holds.
pub fn canonical_listing<'a>(entries: &'a Vec<SourceEntry>) -> (sorted: Vec<&'a SourceEntry>)
    ensures
        derefs(sorted@) == canonical(entries@),
{
    let mut sorted: Vec<&SourceEntry> = Vec::new();
    let mut i: usize = 0;
    assert(entries@.take(0) =~= Seq::<SourceEntry>::empty());
    assert(derefs(sorted@) =~= Seq::<SourceEntry>::empty());
    while i < entries.len()
        invariant
            i <= entries.len(),
            sorted.len() == i,
            derefs(sorted@) == canonical(entries@.take(i as int)),
        decreases entries.len() - i,
    {
        let entry = &entries[i];
        let ghost before = derefs(sorted@);
        let mut place: usize = sorted.len();
        let mut searching = true;
        assert(before.take(place as int) =~= before);
        while searching && place > 0
            invariant
                place <= sorted.len(),
                before == derefs(sorted@),
                insert_position(before, *entry) == insert_position(
                    before.take(place as int),
                    *entry,
                ),
                !searching ==> place > 0 && !path_before(
                    views(entry.path@),
                    views(before[place - 1].path@),
                ),
            decreases place + (if searching { 1nat } else { 0nat }),
        {
            let other = sorted[place - 1];
            assert(*other == before[place - 1]);
            assert(before.take(place as int).last() == before[place - 1]);
            if path_lt(&entry.path, &other.path) {
                assert(before.take(place as int).drop_last() =~= before.take(place - 1));
                place -= 1;
            } else {
                searching = false;
            }
        }
        assert(insert_position(before.take(place as int), *entry) == place) by {
            if place > 0 {
                assert(before.take(place as int).last() == before[place - 1]);
            }
        }
        sorted.insert(place, entry);
        proof {
            assert(entries@.take(i + 1).drop_last() =~= entries@.take(i as int));
            assert(entries@.take(i + 1).last() == *entry);
            assert(derefs(sorted@) =~= before.insert(place as int, *entry));
        }
        i += 1;
    }
    assert(entries@.take(entries.len() as int) == entries@);
    sorted
}

/// The entries of a bundle for a listing in the order of the listing: the
/// top directory, named `dir_name`, then each entry of the listing that is
/// not at an ignored path, under its path below the top directory, files
/// with their contents.
///
/// The entries are refused where the name of the project directory, or a
/// component of the path of an entry that is not ignored, is no portable
/// name, or where such an entry has no path.
pub fn plan_listing(dir_name: &str, listing: &Vec<&SourceEntry>) -> (r: DistributionResult<
    Vec<BundleItem>,
>)
    ensures
        match r {
            Ok(items) => {
                &&& bundle_names_valid(dir_name@, derefs(listing@))
                &&& items_view(items@) == bundle_plan(dir_name@, derefs(listing@))
            },
            Err(e) => {
                &&& !bundle_names_valid(dir_name@, derefs(listing@))
                &&& e matches DistributionError::EntryName(_)
            },
        },
{
    let ghost all = derefs(listing@);
    proof {
        reveal_strlit("/");
    }
    if !is_portable_top(dir_name) {
        return Err(DistributionError::EntryName(String::from_str(dir_name)));
    }
    let ignored = ignored_names();
    let no_paths: Vec<Vec<String>> = Vec::new();
    let mut items: Vec<BundleItem> = Vec::new();
    items.push(
        BundleItem { path: String::from_str(dir_name), kind: KIND_DIR, mode: MODE_DIR, data: Vec::new() },
    );
    let mut i: usize = 0;
    while i < listing.len()
        invariant
            i <= listing.len(),
            all == derefs(listing@),
            "/"@ == seq!['/'],
            portable_top(dir_name@),
            views(ignored@) == ignored_spec(),
            crate::build_project::path_views(no_paths@) == Seq::<Seq<Seq<char>>>::empty(),
            items_view(items@) == bundle_plan(dir_name@, all.take(i as int)),
            bundle_names_valid(dir_name@, all.take(i as int)),
        decreases listing.len() - i,
    {
        let entry = listing[i];
        let ghost before = all.take(i as int);
        let ghost now = all.take(i + 1);
        proof {
            assert(now.drop_last() =~= before);
            assert(now.last() == *entry);
        }
        if !path_is_excluded(&entry.path, &no_paths, &ignored) {
            let bad = if entry.path.len() == 0 {
                Some(String::new())
            } else {
                match find_unportable(&entry.path) {
                    Some(k) => Some(entry.path[k].clone()),
                    None => None,
                }
            };
            match bad {
                Some(name) => {
                    proof {
                        assert(!portable_components(views(entry.path@))) by {
                            if entry.path.len() > 0 {
                                let k = choose|k: int|
                                    0 <= k < entry.path.len() && !portable_name(entry.path[k]@);
                                assert(views(entry.path@)[k] == entry.path[k]@);
                            }
                        }
                    }
                    return Err(DistributionError::EntryName(name));
                },
                None => {},
            }
            let mut names: Vec<String> = Vec::new();
            names.push(String::from_str(dir_name));
            let mut k: usize = 0;
            while k < entry.path.len()
                invariant
                    k <= entry.path.len(),
                    views(names@) == seq![dir_name@] + views(entry.path@).take(k as int),
                decreases entry.path.len() - k,
            {
                let ghost prev = views(names@);
                names.push(entry.path[k].clone());
                assert(views(names@) =~= prev.push(entry.path@[k as int]@));
                k += 1;
            }
            assert(views(entry.path@).take(entry.path.len() as int) =~= views(entry.path@));
            let path = join(&names, "/");
            if entry.is_dir {
                items.push(BundleItem { path, kind: KIND_DIR, mode: MODE_DIR, data: Vec::new() });
            } else {
                items.push(
                    BundleItem { path, kind: KIND_FILE, mode: MODE_FILE, data: entry.data.clone() },
                );
            }
            proof {
                assert(bundle_plan(dir_name@, now) == bundle_plan(dir_name@, before).push(
                    bundle_item(dir_name@, *entry),
                ));
            }
        } else {
            proof {
                assert(bundle_plan(dir_name@, now) == bundle_plan(dir_name@, before));
            }
        }
        proof {
            assert(bundle_names_valid(dir_name@, now)) by {
                assert forall|j: int|
                    0 <= j < now.len() && !is_ignored(
                        views((#[trigger] now[j]).path@),
                    ) implies portable_components(views(now[j].path@)) by {
                    if j < i {
                        assert(now[j] == before[j]);
                    }
                }
            }
        }
        i += 1;
    }
    assert(all.take(listing.len() as int) == all);
    Ok(items)
}

/// The entries of the bundle of a derived project, in order: the top
/// directory, named `dir_name` after the project directory, then each of
/// `entries` that is not at an ignored path, under its path below the top
/// directory, files with their contents. The entries stand in the order of
/// their paths, whatever the order in which they are given.
///
/// The entries are refused where the name of the project directory, or a
/// component of the path of an entry that is not ignored, is no portable
/// name, or where such an entry has no path.
pub fn bundle_entries(dir_name: &str, entries: &Vec<SourceEntry>) -> (r: DistributionResult<
    Vec<BundleItem>,
>)
    ensures
        match r {
            Ok(items) => {
                &&& bundle_names_valid(dir_name@, entries@)
                &&& items_view(items@) == bundle_plan(dir_name@, canonical(entries@))
            },
            Err(e) => {
                &&& !bundle_names_valid(dir_name@, entries@)
                &&& e matches DistributionError::EntryName(_)
            },
        },
{
    let listing = canonical_listing(entries);
    let r = plan_listing(dir_name, &listing);
    proof {
        lemma_canonical_same_entries(entries@);
        if bundle_names_valid(dir_name@, entries@) {
            lemma_valid_in_any_order(dir_name@, entries@, canonical(entries@));
        }
        if bundle_names_valid(dir_name@, canonical(entries@)) {
            lemma_valid_in_any_order(dir_name@, canonical(entries@), entries@);
        }
    }
    r
}

/// Every path of the plan of a bundle with valid names is a portable path.
pub proof fn lemma_plan_paths_portable(dir_name: Seq<char>, entries: Seq<SourceEntry>)
    requires
        bundle_names_valid(dir_name, entries),
    ensures
        forall|i: int|
            0 <= i < bundle_plan(dir_name, entries).len() ==> portable_path(
                (#[trigger] bundle_plan(dir_name, entries)[i]).0,
            ),
    decreases entries.len(),
{
    let plan = bundle_plan(dir_name, entries);
    if entries.len() == 0 {
        let names = seq![dir_name];
        assert(names.len() > 0 && dir_name == join_spec(names, seq!['/']) && forall|i: int|
            0 <= i < names.len() ==> portable_name(#[trigger] names[i]));
    } else {
        let init = entries.drop_last();
        let last = entries.last();
        assert(bundle_names_valid(dir_name, init)) by {
            assert forall|j: int|
                0 <= j < init.len() && !is_ignored(
                    views((#[trigger] init[j]).path@),
                ) implies portable_components(views(init[j].path@)) by {
                assert(init[j] == entries[j]);
            }
        }
        lemma_plan_paths_portable(dir_name, init);
        let before = bundle_plan(dir_name, init);
        assert forall|i: int| 0 <= i < plan.len() implies portable_path((#[trigger] plan[i]).0) by {
            if i < before.len() {
                assert(plan[i] == before[i]);
            }
        }
    }
}

/// Every entry of the plan of a bundle is a regular file or a directory, with
/// the permission bits of its kind.
pub proof fn lemma_plan_kinds_and_modes(dir_name: Seq<char>, entries: Seq<SourceEntry>, i: int)
    requires
        0 <= i < bundle_plan(dir_name, entries).len(),
    ensures
        ({
            let item = bundle_plan(dir_name, entries)[i];
            (item.1 == KIND_DIR && item.2 == MODE_DIR) || (item.1 == KIND_FILE && item.2
                == MODE_FILE)
        }),
    decreases entries.len(),
{
    if entries.len() > 0 {
        let before = bundle_plan(dir_name, entries.drop_last());
        if i < before.len() {
            lemma_plan_kinds_and_modes(dir_name, entries.drop_last(), i);
        }
    }
}

/// The bundle of a derived project: a tar archive whose entries lie below
/// one directory, named `dir_name` after the project directory. `entries`
/// are the entries found below the project directory, directories before
/// what they hold. Those at an ignored path stay out; the others follow the
/// top directory in the given order, files with their contents. Modification
/// times are zero and permissions fixed, so the bundle depends on the names
/// and contents alone.
///
/// The bundle is refused where a name that would stand in it is no portable
/// name, and only there: a name with a backslash, which is a separator on
/// some platforms, so that the archive would not be the same on each.
pub fn make_compressed_proj_src(dir_name: &str, entries: &Vec<SourceEntry>) -> (r:
    DistributionResult<Vec<u8>>)
    ensures
        match r {
            Ok(bytes) => is_bundle_of(bytes@, dir_name@, entries@),
            Err(e) => {
                &&& !bundle_names_valid(dir_name@, entries@)
                &&& e matches DistributionError::EntryName(_)
            },
        },
{
    let items = match bundle_entries(dir_name, entries) {
        Ok(items) => items,
        Err(e) => {
            return Err(e);
        },
    };
    let ghost listing = canonical(entries@);
    let ghost plan = bundle_plan(dir_name@, listing);
    proof {
        lemma_canonical_same_entries(entries@);
        lemma_valid_in_any_order(dir_name@, entries@, listing);
        lemma_plan_paths_portable(dir_name@, listing);
    }
    let mut builder = new_builder();
    let mut i: usize = 0;
    while i < items.len()
        invariant
            i <= items.len(),
            items_view(items@) == plan,
            plan == bundle_plan(dir_name@, listing),
            forall|j: int| 0 <= j < plan.len() ==> portable_path((#[trigger] plan[j]).0),
            archive_entries(builder) == plan.take(i as int),
        decreases items.len() - i,
    {
        let item = &items[i];
        assert(plan[i as int] == (item.path@, item.kind, item.mode, item.data@));
        proof {
            lemma_plan_kinds_and_modes(dir_name@, listing, i as int);
        }
        append_data(&mut builder, item.path.as_str(), item.kind, item.mode, item.data.as_slice());
        assert(plan.take(i + 1) =~= plan.take(i as int).push(plan[i as int]));
        i += 1;
    }
    assert(plan.take(items.len() as int) =~= plan);
    Ok(into_inner(builder))
}

/// A join of parts behind a first part is the first part, and, where there
/// are more, the separator and the join of the others.
pub proof fn lemma_join_behind_first(first: Seq<char>, others: Seq<Seq<char>>, sep: Seq<char>)
    ensures
        join_spec(seq![first] + others, sep) == if others.len() == 0 {
            first
        } else {
            first + sep + join_spec(others, sep)
        },
    decreases others.len(),
{
    let all = seq![first] + others;
    if others.len() == 0 {
        assert(all =~= seq![first]);
    } else {
        let init = others.drop_last();
        assert(all.drop_last() =~= seq![first] + init);
        lemma_join_behind_first(first, init, sep);
        if init.len() == 0 {
            assert(first + sep + others.last() =~= first + sep + join_spec(others, sep));
        } else {
            assert(first + sep + join_spec(init, sep) + sep + others.last() =~= first + sep + (
            join_spec(init, sep) + sep + others.last()));
        }
    }
}

/// The entries of a bundle begin with its top directory.
pub proof fn lemma_top_comes_first(dir_name: Seq<char>, entries: Seq<SourceEntry>)
    ensures
        bundle_plan(dir_name, entries).len() > 0,
        bundle_plan(dir_name, entries)[0] == top_item(dir_name),
    decreases entries.len(),
{
    if entries.len() > 0 {
        lemma_top_comes_first(dir_name, entries.drop_last());
    }
}

/// Every entry of a bundle lies below its one top directory: the path of an
/// entry is the name of the project directory, or begins with that name and
/// a `/`.
pub proof fn lemma_entries_lie_below_top(dir_name: Seq<char>, entries: Seq<SourceEntry>, i: int)
    requires
        0 <= i < bundle_plan(dir_name, entries).len(),
    ensures
        bundle_plan(dir_name, entries)[i].0 == dir_name || (dir_name + seq!['/']).is_prefix_of(
            bundle_plan(dir_name, entries)[i].0,
        ),
    decreases entries.len(),
{
    let plan = bundle_plan(dir_name, entries);
    if entries.len() > 0 {
        let init = entries.drop_last();
        let last = entries.last();
        let before = bundle_plan(dir_name, init);
        if i < before.len() {
            lemma_entries_lie_below_top(dir_name, init, i);
        } else {
            let path = views(last.path@);
            lemma_join_behind_first(dir_name, path, seq!['/']);
        }
    }
}

/// The bundle holds the top directory and the entries that are not ignored,
/// and nothing else: an entry of the project is in the bundle if and only if
/// no component of its path is an ignored name.
pub proof fn lemma_bundle_holds_what_is_not_ignored(
    dir_name: Seq<char>,
    entries: Seq<SourceEntry>,
    item: ArchiveItem,
)
    ensures
        bundle_plan(dir_name, entries).contains(item) <==> (item == top_item(dir_name) || exists|
            i: int,
        |
            0 <= i < entries.len() && !is_ignored(views((#[trigger] entries[i]).path@)) && item
                == bundle_item(dir_name, entries[i])),
    decreases entries.len(),
{
    let plan = bundle_plan(dir_name, entries);
    lemma_top_comes_first(dir_name, entries);
    if entries.len() == 0 {
        assert(plan[0] == top_item(dir_name));
    } else {
        let init = entries.drop_last();
        let last = entries.last();
        let before = bundle_plan(dir_name, init);
        lemma_top_comes_first(dir_name, init);
        lemma_bundle_holds_what_is_not_ignored(dir_name, init, item);
        let kept = |e: Seq<SourceEntry>|
            exists|i: int|
                0 <= i < e.len() && !is_ignored(views((#[trigger] e[i]).path@)) && item
                    == bundle_item(dir_name, e[i]);
        if plan.contains(item) {
            let k = choose|k: int| 0 <= k < plan.len() && plan[k] == item;
            if k < before.len() {
                if item != top_item(dir_name) {
                    let i = choose|i: int|
                        0 <= i < init.len() && !is_ignored(views((#[trigger] init[i]).path@))
                            && item == bundle_item(dir_name, init[i]);
                }
            } else {
                assert(entries[entries.len() - 1] == last);
            }
        }
        if item == top_item(dir_name) {
            let k = choose|k: int| 0 <= k < before.len() && before[k] == item;
        }
        if kept(entries) {
            let i = choose|i: int|
                0 <= i < entries.len() && !is_ignored(views((#[trigger] entries[i]).path@))
                    && item == bundle_item(dir_name, entries[i]);
            if i < init.len() {
                assert(init[i] == entries[i]);
                let k = choose|k: int| 0 <= k < before.len() && before[k] == item;
                assert(plan[k] == item);
            } else {
                assert(plan[plan.len() - 1] == item);
            }
        }
    }
}

} // verus!
