//! From a request to a configured engine: the global options that every
//! request shares, and what each request adds to them.

use vstd::prelude::*;
use vstd::string::*;
use bindgen::{Builder, CodegenConfig};
use crate::engine::{
    allow_function, allow_type, allow_var, default_settings, functions_kind, item_bits, settings,
    target_latest_stable, with_clang_arg, Settings, FUNCTIONS,
};
use crate::request::{GenerationRequest, Pass, PassView, RequestView};
use crate::search_path::{
    entry_views, search_path_args, search_path_arguments, texts, LibraryEntry, ScanError,
};

verus! {

/// The item kinds of a declarations pass: all but functions.
pub const DECLARATION_ITEMS: u32 = 0x3e;

/// The configuration that every request starts from, given the arguments
/// for the header search path: no layout tests, `Copy` derived, the latest
/// stable target, and nothing else changed.
pub open spec fn global_settings(search_arguments: Seq<Seq<char>>) -> Settings {
    Settings { layout_tests: false, clang_args: search_arguments, ..default_settings() }
}

/// `base` with what a request asks for: the kinds of item of its pass, its
/// patterns, and whether allowlisting is recursive.
pub open spec fn with_request(base: Settings, request: RequestView) -> Settings {
    match request.pass {
        PassView::Declarations { variables, types } => Settings {
            items: DECLARATION_ITEMS,
            allowed_vars: base.allowed_vars.push(variables),
            allowed_types: base.allowed_types.push(types),
            recursive: request.recursive,
            ..base
        },
        PassView::Functions { functions } => Settings {
            items: FUNCTIONS,
            allowed_functions: base.allowed_functions.push(functions),
            recursive: request.recursive,
            ..base
        },
    }
}

/// The item kinds of a declarations pass.
pub fn disable_function_generation() -> (config: CodegenConfig)
    ensures
        item_bits(config) == DECLARATION_ITEMS,
{
    let mut config = CodegenConfig::all();
    config.set(functions_kind(), false);
    assert(0x3fu32 & !0x01u32 == 0x3eu32) by (bit_vector);
    config
}

/// The item kinds of a functions pass.
pub fn generate_only_functions() -> (config: CodegenConfig)
    ensures
        item_bits(config) == FUNCTIONS,
{
    let mut config = CodegenConfig::empty();
    config.set(functions_kind(), true);
    assert(0u32 | 0x01u32 == 0x01u32) by (bit_vector);
    config
}

/// Builds the configuration that every request starts from, out of what was
/// found below the libraries root.
///
/// Fails as the scan of the entries fails, and only then.
pub fn bindgen_global_options(entries: &Vec<LibraryEntry>) -> (outcome: Result<Builder, ScanError>)
    ensures
        match search_path_arguments(entry_views(entries@)) {
            Ok(arguments) => outcome matches Ok(builder) && settings(builder) == global_settings(
                arguments,
            ),
            Err(fault) => outcome matches Err(error) && error@ == fault,
        },
{
    let arguments = match search_path_args(entries) {
        Ok(arguments) => arguments,
        Err(error) => {
            return Err(error);
        },
    };
    let mut builder = target_latest_stable(Builder::default().layout_tests(false).derive_copy(true));
    let mut i: usize = 0;
    assert(texts(arguments@).take(0) =~= Seq::empty());
    while i < arguments.len()
        invariant
            i <= arguments.len(),
            settings(builder) == global_settings(texts(arguments@).take(i as int)),
        decreases arguments.len() - i,
    {
        assert(texts(arguments@).take(i + 1) =~= texts(arguments@).take(i as int).push(
            arguments[i as int]@,
        ));
        builder = with_clang_arg(builder, arguments[i].clone());
        i += 1;
    }
    assert(texts(arguments@).take(i as int) =~= texts(arguments@));
    Ok(builder)
}

/// Adds to a builder what a request asks for.
pub fn configure(builder: Builder, request: &GenerationRequest) -> (configured: Builder)
    ensures
        settings(configured) == with_request(settings(builder), request@),
{
    match &request.pass {
        Pass::Declarations { variables, types } => {
            let builder = builder.with_codegen_config(disable_function_generation());
            let builder = allow_var(builder, variables.as_str());
            let builder = allow_type(builder, types.as_str());
            builder.allowlist_recursively(request.recursive)
        },
        Pass::Functions { functions } => {
            let builder = builder.with_codegen_config(generate_only_functions());
            let builder = allow_function(builder, functions.as_str());
            builder.allowlist_recursively(request.recursive)
        },
    }
}

} // verus!
