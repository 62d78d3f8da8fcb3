//! The binding-generation engine, as far as this library configures it.
//!
//! The engine is the `bindgen` crate. Nothing in this file is proved: it
//! declares the engine's two configuration types and states, for each engine
//! function that the library calls, what that function does to the
//! configuration. The rest of the crate is proved from these statements.

use vstd::prelude::*;

verus! {

/// `bindgen::Builder`, the engine's configuration under construction.
#[verifier::external_type_specification]
#[verifier::external_body]
pub struct ExBuilder(bindgen::Builder);

/// `bindgen::CodegenConfig`, the set of item kinds that the engine generates.
#[verifier::external_type_specification]
#[verifier::external_body]
pub struct ExCodegenConfig(bindgen::CodegenConfig);

/// The part of a builder's configuration that this library sets or relies on.
pub struct Settings {
    /// Headers to parse, in the order in which they were added.
    pub headers: Seq<Seq<char>>,
    /// Arguments handed through to the C parser, in order.
    pub clang_args: Seq<Seq<char>>,
    /// Patterns of the variables to keep, in order.
    pub allowed_vars: Seq<Seq<char>>,
    /// Patterns of the types to keep, in order.
    pub allowed_types: Seq<Seq<char>>,
    /// Patterns of the functions to keep, in order.
    pub allowed_functions: Seq<Seq<char>>,
    /// The kinds of item to generate, as the bits of a `CodegenConfig`.
    pub items: u32,
    /// Whether layout tests are generated.
    pub layout_tests: bool,
    /// Whether generated types derive `Copy`.
    pub derive_copy: bool,
    /// Whether items that an allowed item refers to are kept as well.
    pub recursive: bool,
    /// Whether the output is written for the latest stable Rust that the
    /// engine knows.
    pub latest_stable: bool,
}

/// Bit of the item kind "functions" in a `CodegenConfig`.
pub const FUNCTIONS: u32 = 0x01;

/// Bits of all six item kinds of a `CodegenConfig`: functions, types,
/// variables, methods, constructors and destructors.
pub const ALL_ITEMS: u32 = 0x3f;

/// The configuration that a builder holds: the fields of the builder and of
/// its options that `Settings` lists.
pub uninterp spec fn settings(builder: bindgen::Builder) -> Settings;

/// The bits of a `CodegenConfig`: what `CodegenConfig::bits` returns for it.
pub uninterp spec fn item_bits(config: bindgen::CodegenConfig) -> u32;

/// The configuration of a builder that nothing has been done to.
pub open spec fn default_settings() -> Settings {
    Settings {
        headers: Seq::empty(),
        clang_args: Seq::empty(),
        allowed_vars: Seq::empty(),
        allowed_types: Seq::empty(),
        allowed_functions: Seq::empty(),
        items: ALL_ITEMS,
        layout_tests: true,
        derive_copy: true,
        recursive: true,
        latest_stable: true,
    }
}

/// `Builder::default` builds the options from `BindgenOptions::default`,
/// with no header: no parser arguments and no patterns, all item kinds,
/// layout tests and `Copy` on, recursive allowlisting on, and the default
/// target, which is the latest stable one.
pub assume_specification[ <bindgen::Builder as Default>::default ]() -> (builder: bindgen::Builder)
    ensures
        settings(builder) == default_settings(),
;

/// `Builder::layout_tests` stores its argument in the option of that name.
pub assume_specification[ bindgen::Builder::layout_tests ](
    builder: bindgen::Builder,
    doit: bool,
) -> (configured: bindgen::Builder)
    ensures
        settings(configured) == (Settings { layout_tests: doit, ..settings(builder) }),
;

/// `Builder::derive_copy` stores its argument in the option of that name.
pub assume_specification[ bindgen::Builder::derive_copy ](
    builder: bindgen::Builder,
    doit: bool,
) -> (configured: bindgen::Builder)
    ensures
        settings(configured) == (Settings { derive_copy: doit, ..settings(builder) }),
;

/// `Builder::with_codegen_config` replaces the set of item kinds.
pub assume_specification[ bindgen::Builder::with_codegen_config ](
    builder: bindgen::Builder,
    config: bindgen::CodegenConfig,
) -> (configured: bindgen::Builder)
    ensures
        settings(configured) == (Settings { items: item_bits(config), ..settings(builder) }),
;

/// `Builder::allowlist_recursively` stores its argument in the option of
/// that name.
pub assume_specification[ bindgen::Builder::allowlist_recursively ](
    builder: bindgen::Builder,
    doit: bool,
) -> (configured: bindgen::Builder)
    ensures
        settings(configured) == (Settings { recursive: doit, ..settings(builder) }),
;

/// `Builder::rust_target`, called with `LATEST_STABLE_RUST`: sets the target
/// and the language features that follow from it.
#[verifier::external_body]
pub(crate) fn target_latest_stable(builder: bindgen::Builder) -> (configured: bindgen::Builder)
    ensures
        settings(configured) == (Settings { latest_stable: true, ..settings(builder) }),
{
    builder.rust_target(bindgen::LATEST_STABLE_RUST)
}

/// `Builder::header` appends the header to the list of input headers.
#[verifier::external_body]
pub(crate) fn with_header(builder: bindgen::Builder, header: String) -> (configured:
    bindgen::Builder)
    ensures
        settings(configured) == (Settings {
            headers: settings(builder).headers.push(header@),
            ..settings(builder)
        }),
{
    builder.header(header)
}

/// `Builder::clang_arg` appends the argument to the list of parser arguments.
#[verifier::external_body]
pub(crate) fn with_clang_arg(builder: bindgen::Builder, argument: String) -> (configured:
    bindgen::Builder)
    ensures
        settings(configured) == (Settings {
            clang_args: settings(builder).clang_args.push(argument@),
            ..settings(builder)
        }),
{
    builder.clang_arg(argument)
}

/// `Builder::allowlist_var` appends the pattern to the patterns of the
/// variables to keep.
#[verifier::external_body]
pub(crate) fn allow_var(builder: bindgen::Builder, pattern: &str) -> (configured: bindgen::Builder)
    ensures
        settings(configured) == (Settings {
            allowed_vars: settings(builder).allowed_vars.push(pattern@),
            ..settings(builder)
        }),
{
    builder.allowlist_var(pattern)
}

/// `Builder::allowlist_type` appends the pattern to the patterns of the types
/// to keep.
#[verifier::external_body]
pub(crate) fn allow_type(builder: bindgen::Builder, pattern: &str) -> (configured:
    bindgen::Builder)
    ensures
        settings(configured) == (Settings {
            allowed_types: settings(builder).allowed_types.push(pattern@),
            ..settings(builder)
        }),
{
    builder.allowlist_type(pattern)
}

/// `Builder::allowlist_function` appends the pattern to the patterns of the
/// functions to keep.
#[verifier::external_body]
pub(crate) fn allow_function(builder: bindgen::Builder, pattern: &str) -> (configured:
    bindgen::Builder)
    ensures
        settings(configured) == (Settings {
            allowed_functions: settings(builder).allowed_functions.push(pattern@),
            ..settings(builder)
        }),
{
    builder.allowlist_function(pattern)
}

/// `CodegenConfig::all` is the set of all six item kinds.
pub assume_specification[ bindgen::CodegenConfig::all ]() -> (config: bindgen::CodegenConfig)
    ensures
        item_bits(config) == ALL_ITEMS,
;

/// `CodegenConfig::empty` is the set of no item kind.
pub assume_specification[ bindgen::CodegenConfig::empty ]() -> (config: bindgen::CodegenConfig)
    ensures
        item_bits(config) == 0,
;

/// `CodegenConfig::set` inserts the kinds of `other` where `value` is true
/// and removes them where it is false.
pub assume_specification[ bindgen::CodegenConfig::set ](
    config: &mut bindgen::CodegenConfig,
    other: bindgen::CodegenConfig,
    value: bool,
)
    ensures
        item_bits(*final(config)) == if value {
            item_bits(*old(config)) | item_bits(other)
        } else {
            item_bits(*old(config)) & !item_bits(other)
        },
;

/// The constant `CodegenConfig::FUNCTIONS`: the item kind "functions" alone.
#[verifier::external_body]
pub(crate) fn functions_kind() -> (config: bindgen::CodegenConfig)
    ensures
        item_bits(config) == FUNCTIONS,
{
    bindgen::CodegenConfig::FUNCTIONS
}

} // verus!
