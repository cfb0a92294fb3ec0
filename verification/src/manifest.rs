//! The build manifest of a generated project.
//!
//! The manifest describes a package whose only target is a dynamically
//! loadable library. The module name is embedded twice, verbatim: once as the
//! package name and once as the name of the library target. Everything else
//! is fixed, the dependency set included.

use vstd::prelude::*;
use vstd::string::*;

verus! {

/// The text up to the package name.
pub open spec fn manifest_head() -> Seq<char> {
    "[package]\nname = \""@
}

/// The text between the package name and the library name: the rest of the
/// package table and the start of the library table.
pub open spec fn manifest_middle() -> Seq<char> {
    "\"\nversion = \"0.1.0\"\nauthors = [\"quark-generate\"]\nedition = \"2018\"\n\n[lib]\nname = \""@
}

/// The text after the library name: the kind of library to build and the
/// pinned dependencies.
pub open spec fn manifest_tail() -> Seq<char> {
    "\"\ncrate-type = [\"dylib\"]\n\n[dependencies]\nanyhow = \"1\"\nrkyv = \"0.6.4\"\n"@
}

/// The manifest for the module called `name`.
pub open spec fn manifest_text(name: Seq<char>) -> Seq<char> {
    manifest_head() + name + manifest_middle() + name + manifest_tail()
}

/// Generates the manifest for the module called `name`. Total: the name is
/// embedded as it is, whatever it holds.
pub fn generate_toml(name: &str) -> (toml: String)
    ensures
        toml@ == manifest_text(name@),
{
    let mut toml = String::from_str("[package]\nname = \"");
    toml.append(name);
    toml.append(
        "\"\nversion = \"0.1.0\"\nauthors = [\"quark-generate\"]\nedition = \"2018\"\n\n[lib]\nname = \"",
    );
    toml.append(name);
    toml.append(
        "\"\ncrate-type = [\"dylib\"]\n\n[dependencies]\nanyhow = \"1\"\nrkyv = \"0.6.4\"\n",
    );
    toml
}

/// The manifest of one module differs from that of any other: the name can be
/// read back from the text.
pub proof fn law_manifest_determines_name(a: Seq<char>, b: Seq<char>)
    requires
        manifest_text(a) == manifest_text(b),
    ensures
        a == b,
{
    let h = manifest_head();
    let m = manifest_middle();
    let t = manifest_tail();
    let ta = manifest_text(a);
    let tb = manifest_text(b);
    assert(ta.len() == h.len() + a.len() + m.len() + a.len() + t.len());
    assert(tb.len() == h.len() + b.len() + m.len() + b.len() + t.len());
    assert(a.len() == b.len());
    assert forall|i: int| 0 <= i < a.len() implies a[i] == b[i] by {
        assert(ta[h.len() + i] == a[i]);
        assert(tb[h.len() + i] == b[i]);
    }
    assert(a =~= b);
}

} // verus!
