//! The source of a loader: the error type of a target type, and the
//! implementation of `AppPropertiesExt` that loads the target type from its
//! source document.

use vstd::prelude::*;
use vstd::string::*;
use crate::declaration::{entries, names_source, Declaration};
use crate::descriptor::{Descriptor, DescriptorView};
use crate::extract::{
    accepted_descriptor, accepts, extract, rejection_of, ExtractErrorView, Rejection,
};
use crate::text::{quote_text, string_literal};

verus! {

/// The source of the error type: a public enum under the descriptor's error
/// type name. Its one variant says that the document could not be
/// deserialized, and carries the parser's error and a backtrace.
pub open spec fn error_type_source(descriptor: DescriptorView) -> Seq<char> {
    "#[derive(Debug, snafu::Snafu)]\n"@
        + "pub enum "@ + descriptor.error_type + " {\n"@
        + "    #[snafu(display(\"AppPropertiesError: Unable to deserialize YAML string.\"))]\n"@
        + "    DeserializeYaml {\n"@
        + "        source: serde_yaml::Error,\n"@
        + "        backtrace: snafu::Backtrace,\n"@
        + "    }\n"@
        + "}\n"@
}

/// The statement of `load` that records, at the level `info`, the path of
/// the document.
pub open spec fn trace_source(descriptor: DescriptorView) -> Seq<char> {
    "        tracing::info!(src_path = "@ + string_literal(descriptor.src_path)
        + ", \"Using source\");\n"@
}

/// The statement of `load` that has the document read in, as text, when the
/// loader is compiled.
pub open spec fn read_source(descriptor: DescriptorView) -> Seq<char> {
    "        let serialized = include_str!("@ + string_literal(descriptor.src_path) + ");\n"@
}

/// The statement of `load` that deserializes the text into the raw
/// intermediate type, and leaves `load` with the error type's variant where
/// that fails.
pub open spec fn deserialize_source(descriptor: DescriptorView) -> Seq<char> {
    "        let mut deserialized: "@ + descriptor.raw_ident
        + " = serde_yaml::from_str(serialized)\n"@
        + "            .context(DeserializeYamlSnafu {})?;\n"@
}

/// The last expression of `load`: the raw value with its references to the
/// environment replaced, its values never treated as secret, converted into
/// the target type.
pub open spec fn resolve_source() -> Seq<char> {
    "        Ok(deserialized.replace_env(replace_env::Metadata { secret: false }).into())\n"@
}

/// The source of `load`: it records the path, reads the document,
/// deserializes it, and resolves and converts the result, in this order.
pub open spec fn load_source(descriptor: DescriptorView) -> Seq<char> {
    "    #[tracing::instrument(level = \"info\", name = \"load_properties\")]\n"@
        + "    fn load() -> Result<Self, Self::Error> {\n"@
        + "        use snafu::ResultExt;\n\n"@
        + trace_source(descriptor)
        + read_source(descriptor)
        + deserialize_source(descriptor)
        + resolve_source()
        + "    }\n"@
}

/// The source of the implementation of `AppPropertiesExt` for the target
/// type, with the descriptor's error type as its error.
pub open spec fn loader_impl_source(descriptor: DescriptorView) -> Seq<char> {
    "impl app_properties::AppPropertiesExt for "@ + descriptor.ident + " {\n"@
        + "    type Error = "@ + descriptor.error_type + ";\n\n"@
        + load_source(descriptor)
        + "}\n"@
}

/// The whole source of a loader: the error type, an empty line, the
/// implementation.
pub open spec fn loader_source(descriptor: DescriptorView) -> Seq<char> {
    error_type_source(descriptor) + "\n"@ + loader_impl_source(descriptor)
}

/// Writes the error type of the descriptor's target type.
pub fn error_type_code(descriptor: &Descriptor) -> (code: String)
    ensures
        code@ == error_type_source(descriptor@),
{
    let mut code = String::from_str("#[derive(Debug, snafu::Snafu)]\n");
    code.append("pub enum ");
    code.append(descriptor.error_type());
    code.append(" {\n");
    code.append(
        "    #[snafu(display(\"AppPropertiesError: Unable to deserialize YAML string.\"))]\n",
    );
    code.append("    DeserializeYaml {\n");
    code.append("        source: serde_yaml::Error,\n");
    code.append("        backtrace: snafu::Backtrace,\n");
    code.append("    }\n");
    code.append("}\n");
    code
}

fn trace_code(descriptor: &Descriptor) -> (code: String)
    ensures
        code@ == trace_source(descriptor@),
{
    let mut code = String::from_str("        tracing::info!(src_path = ");
    code.append(quote_text(descriptor.src_path()).as_str());
    code.append(", \"Using source\");\n");
    code
}

fn read_code(descriptor: &Descriptor) -> (code: String)
    ensures
        code@ == read_source(descriptor@),
{
    let mut code = String::from_str("        let serialized = include_str!(");
    code.append(quote_text(descriptor.src_path()).as_str());
    code.append(");\n");
    code
}

fn deserialize_code(descriptor: &Descriptor) -> (code: String)
    ensures
        code@ == deserialize_source(descriptor@),
{
    let mut code = String::from_str("        let mut deserialized: ");
    code.append(descriptor.raw_ident());
    code.append(" = serde_yaml::from_str(serialized)\n");
    code.append("            .context(DeserializeYamlSnafu {})?;\n");
    code
}

fn load_code(descriptor: &Descriptor) -> (code: String)
    ensures
        code@ == load_source(descriptor@),
{
    let mut code = String::from_str(
        "    #[tracing::instrument(level = \"info\", name = \"load_properties\")]\n",
    );
    code.append("    fn load() -> Result<Self, Self::Error> {\n");
    code.append("        use snafu::ResultExt;\n\n");
    code.append(trace_code(descriptor).as_str());
    code.append(read_code(descriptor).as_str());
    code.append(deserialize_code(descriptor).as_str());
    code.append(
        "        Ok(deserialized.replace_env(replace_env::Metadata { secret: false }).into())\n",
    );
    code.append("    }\n");
    code
}

/// Writes the implementation of `AppPropertiesExt` for the descriptor's
/// target type.
pub fn loader_impl_code(descriptor: &Descriptor) -> (code: String)
    ensures
        code@ == loader_impl_source(descriptor@),
{
    let mut code = String::from_str("impl app_properties::AppPropertiesExt for ");
    code.append(descriptor.ident());
    code.append(" {\n");
    code.append("    type Error = ");
    code.append(descriptor.error_type());
    code.append(";\n\n");
    code.append(load_code(descriptor).as_str());
    code.append("}\n");
    code
}

/// Writes the loader of the descriptor's target type.
pub fn generate(descriptor: &Descriptor) -> (code: String)
    ensures
        code@ == loader_source(descriptor@),
{
    let mut code = error_type_code(descriptor);
    code.append("\n");
    code.append(loader_impl_code(descriptor).as_str());
    code
}

/// Derives the loader of an annotated declaration: its source where the
/// declaration is accepted, and otherwise no source at all but the
/// rejection that says what is wrong with the declaration. A declaration
/// that does not name `src` is always rejected, under its own identifier.
pub fn store(declaration: &Declaration) -> (outcome: Result<String, Rejection>)
    ensures
        accepts(declaration@) ==> (outcome matches Ok(code) && code@ == loader_source(
            accepted_descriptor(declaration@),
        )),
        !accepts(declaration@) ==> (outcome matches Err(rejection) && rejection@ == rejection_of(
            declaration@,
        ) && rejection@.errors.len() > 0),
        !names_source(entries(declaration@.annotations)) ==> (outcome matches Err(rejection)
            && rejection@.ident == declaration@.ident && rejection@.errors.last()
            == ExtractErrorView::SourceMissing),
{
    match extract(declaration) {
        Ok(descriptor) => Ok(generate(&descriptor)),
        Err(rejection) => Err(rejection),
    }
}

} // verus!
