use vstd::prelude::*;

use syn::parse::Parser as _;
use syn::punctuated::Punctuated;
use syn::token::Comma;
use syn::{Expr, ExprLit, Fields, ImplItem, ItemImpl, ItemStruct, Lit, MetaNameValue, Type};

use crate::macros::constraint::{FieldShape, FieldType};

verus! {

/// Why a macro refuses its input: the input is not Rust of the expected
/// kind (with the parser's message), or a rule of the macro refuses it.
#[derive(Debug)]
pub enum MacroError<E> {
    Parse(String),
    Refused(E),
}

/// A struct item as `#[constraint]` reads it.
#[derive(Debug)]
pub struct StructShape {
    /// Whether its fields are named.
    pub named: bool,
    pub fields: Vec<FieldShape>,
}

/// A field: its name, and for a function pointer, which of its parameters
/// are references.
pub open spec fn field_model(f: FieldShape) -> (Seq<char>, Option<Seq<bool>>) {
    (
        f.name@,
        match f.ty {
            FieldType::FnPtr(params) => Some(params@),
            FieldType::Other => None,
        },
    )
}

pub open spec fn fields_model(fields: Seq<FieldShape>) -> Seq<(Seq<char>, Option<Seq<bool>>)> {
    fields.map_values(|f: FieldShape| field_model(f))
}

impl StructShape {
    pub open spec fn model(self) -> (bool, Seq<(Seq<char>, Option<Seq<bool>>)>) {
        (self.named, fields_model(self.fields@))
    }
}

/// The struct that `syn` reads from `text`, field by field, or `None` where
/// `text` is not a struct item.
pub uninterp spec fn struct_text_shape(text: Seq<char>) -> Option<(bool, Seq<(Seq<char>, Option<Seq<bool>>)>)>;

/// Calls `syn::parse_str::<ItemStruct>` and describes the struct it
/// returns: whether its fields are named, each field's name, and for a
/// function-pointer field whether each parameter is a reference. The
/// contract ties the description to [`struct_text_shape`] of the text; the
/// parser's error message is not described.
#[verifier::external_body]
pub(crate) fn parse_struct(text: &str) -> (r: Result<StructShape, String>)
    ensures
        match r {
            Ok(s) => struct_text_shape(text@) == Some(s.model()),
            Err(_) => struct_text_shape(text@) is None,
        },
{
    let item = syn::parse_str::<ItemStruct>(text).map_err(|e| e.to_string())?;
    let named = matches!(item.fields, Fields::Named(_));
    let fields = item.fields.iter().map(|f| FieldShape {
        name: f.ident.as_ref().map(|i| i.to_string()).unwrap_or_default(),
        ty: match &f.ty {
            Type::BareFn(b) => FieldType::FnPtr(
                b.inputs.iter().map(|a| matches!(a.ty, Type::Reference(_))).collect(),
            ),
            _ => FieldType::Other,
        },
    }).collect();
    Ok(StructShape { named, fields })
}


/// Calls `syn::parse_str::<Type>` and reports whether `text` is a type.
#[verifier::external_body]
pub(crate) fn parses_as_type(text: &str) -> (r: bool)
    ensures
        r == is_type_text(text@),
{
    syn::parse_str::<Type>(text).is_ok()
}

/// Whether `syn` reads `text` as a type.
pub uninterp spec fn is_type_text(text: Seq<char>) -> bool;

/// An item of an `impl` block: a method, with its name, whether it takes
/// `self`, and the paths of its attributes segment by segment; or any other
/// item.
#[derive(Debug)]
pub enum ImplEntry {
    Method { name: String, has_receiver: bool, attribute_paths: Vec<Vec<String>> },
    Other,
}

/// An `impl` block: the last segment of its self type's path, when that
/// type is a path, and its items.
#[derive(Debug)]
pub struct ImplShape {
    pub self_type: Option<String>,
    pub items: Vec<ImplEntry>,
}

/// The segments of an attribute path, as text.
pub open spec fn path_model(path: Vec<String>) -> Seq<Seq<char>> {
    path@.map_values(|s: String| s@)
}

pub open spec fn paths_model(paths: Vec<Vec<String>>) -> Seq<Seq<Seq<char>>> {
    paths@.map_values(|p: Vec<String>| path_model(p))
}

pub open spec fn entry_model(e: ImplEntry) -> Option<(Seq<char>, bool, Seq<Seq<Seq<char>>>)> {
    match e {
        ImplEntry::Method { name, has_receiver, attribute_paths } => Some(
            (name@, has_receiver, paths_model(attribute_paths)),
        ),
        ImplEntry::Other => None,
    }
}

impl ImplShape {
    pub open spec fn model(self) -> (Option<Seq<char>>, Seq<Option<(Seq<char>, bool, Seq<Seq<Seq<char>>>)>>) {
        (
            match self.self_type {
                Some(s) => Some(s@),
                None => None,
            },
            self.items@.map_values(|e: ImplEntry| entry_model(e)),
        )
    }
}

/// The `impl` block that `syn` reads from `text`, item by item, or `None`
/// where `text` is not an `impl` block.
pub uninterp spec fn impl_text_shape(text: Seq<char>) -> Option<
    (Option<Seq<char>>, Seq<Option<(Seq<char>, bool, Seq<Seq<Seq<char>>>)>>),
>;

/// Calls `syn::parse_str::<ItemImpl>` and describes the block it
/// returns: the last segment of a path self type, and each item, a method
/// by its name, receiver and attribute paths. The contract ties the
/// description to [`impl_text_shape`] of the text; the parser's error
/// message is not described.
#[verifier::external_body]
pub(crate) fn parse_impl(text: &str) -> (r: Result<ImplShape, String>)
    ensures
        match r {
            Ok(s) => impl_text_shape(text@) == Some(s.model()),
            Err(_) => impl_text_shape(text@) is None,
        },
{
    let block = syn::parse_str::<ItemImpl>(text).map_err(|e| e.to_string())?;
    Ok(ImplShape {
        self_type: match &*block.self_ty {
            Type::Path(p) => p.path.segments.last().map(|s| s.ident.to_string()),
            _ => None,
        },
        items: block.items.iter().map(|item| match item {
            ImplItem::Fn(m) => ImplEntry::Method {
                name: m.sig.ident.to_string(),
                has_receiver: m.sig.receiver().is_some(),
                attribute_paths: m.attrs.iter().map(|a| a.path().segments.iter().map(|s| s.ident.to_string()).collect()).collect(),
            },
            _ => ImplEntry::Other,
        }).collect(),
    })
}


/// One `name = value` argument of an attribute: the path's segments, and
/// the text of the value when it is a string literal.
#[derive(Debug)]
pub struct MacroArgument {
    pub path: Vec<String>,
    pub text: Option<String>,
}

pub open spec fn argument_model(a: MacroArgument) -> (Seq<Seq<char>>, Option<Seq<char>>) {
    (
        path_model(a.path),
        match a.text {
            Some(t) => Some(t@),
            None => None,
        },
    )
}

pub open spec fn arguments_model(args: Seq<MacroArgument>) -> Seq<(Seq<Seq<char>>, Option<Seq<char>>)> {
    args.map_values(|a: MacroArgument| argument_model(a))
}

/// The comma-separated `name = value` arguments that `syn` reads from
/// `text`, or `None` where `text` is not such a list.
pub uninterp spec fn arguments_text_shape(text: Seq<char>) -> Option<Seq<(Seq<Seq<char>>, Option<Seq<char>>)>>;

/// Calls `Punctuated::<syn::MetaNameValue, syn::token::Comma>::parse_terminated`
/// on `text` and describes each argument by its path and, for a string
/// literal value, its text. The contract ties the description to
/// [`arguments_text_shape`]; the parser's error message is not described.
#[verifier::external_body]
pub(crate) fn parse_arguments(text: &str) -> (r: Result<Vec<MacroArgument>, String>)
    ensures
        match r {
            Ok(a) => arguments_text_shape(text@) == Some(arguments_model(a@)),
            Err(_) => arguments_text_shape(text@) is None,
        },
{
    let parser = Punctuated::<MetaNameValue, Comma>::parse_terminated;
    let list = parser.parse_str(text).map_err(|e| e.to_string())?;
    Ok(list.iter().map(|a| MacroArgument {
        path: a.path.segments.iter().map(|s| s.ident.to_string()).collect(),
        text: match &a.value {
            Expr::Lit(ExprLit { lit: Lit::Str(s), .. }) => Some(s.value()),
            _ => None,
        },
    }).collect())
}


/// One argument of a function-like macro: whether it is a path, and the
/// text of a string literal.
#[derive(Debug)]
pub struct ExprShape {
    pub is_path: bool,
    pub text: Option<String>,
}

pub open spec fn expr_model(e: ExprShape) -> (bool, Option<Seq<char>>) {
    (
        e.is_path,
        match e.text {
            Some(t) => Some(t@),
            None => None,
        },
    )
}

pub open spec fn exprs_model(es: Seq<ExprShape>) -> Seq<(bool, Option<Seq<char>>)> {
    es.map_values(|e: ExprShape| expr_model(e))
}

/// The comma-separated expressions that `syn` reads from `text`, or `None`
/// where `text` is not such a list.
pub uninterp spec fn exprs_text_shape(text: Seq<char>) -> Option<Seq<(bool, Option<Seq<char>>)>>;

/// Calls `Punctuated::<syn::Expr, syn::token::Comma>::parse_terminated` on
/// `text` and describes each expression: whether it is a path, and the
/// text of a string literal. The contract ties the description to
/// [`exprs_text_shape`]; the parser's error message is not described.
#[verifier::external_body]
pub(crate) fn parse_exprs(text: &str) -> (r: Result<Vec<ExprShape>, String>)
    ensures
        match r {
            Ok(es) => exprs_text_shape(text@) == Some(exprs_model(es@)),
            Err(_) => exprs_text_shape(text@) is None,
        },
{
    let parser = Punctuated::<Expr, Comma>::parse_terminated;
    let list = parser.parse_str(text).map_err(|e| e.to_string())?;
    Ok(list.iter().map(|e| ExprShape {
        is_path: matches!(e, Expr::Path(_)),
        text: match e {
            Expr::Lit(ExprLit { lit: Lit::Str(s), .. }) => Some(s.value()),
            _ => None,
        },
    }).collect())
}

} // verus!
