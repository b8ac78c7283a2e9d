[package]
name = "no_prototype_builtins"
version = "0.1.0"
edition = "2021"
publish = false

[dependencies]
# The parser and the syntax tree that the rule is run on.
swc_common = "=0.10.23"
swc_ecmascript = { version = "=0.15.1", features = ["parser", "visit"] }

# Not used directly. These are held to the versions that swc_ecmascript 0.15
# builds with: later ones of the same line no longer fit it.
ast_node = "=0.7.3"
enum_kind = "=0.2.1"
from_variant = "=0.1.3"
scoped-tls = "=1.0.0"
serde = "=1.0.219"
string_enum = "=0.3.1"
swc_macros_common = "=0.3.3"
