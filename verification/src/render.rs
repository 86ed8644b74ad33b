//! Render planning: content-addressed artifact and temporary-source names,
//! the compiler's input text, and the external compiler's argument list. The
//! filesystem and subprocess work itself happens outside the library; these
//! functions fix exactly what that work writes and runs.

use vstd::prelude::*;
use vstd::string::*;

use crate::hash::sha256_hex_of;

verus! {

/// One pending render: a recognized code block's exact source text, its cache
/// key, and whether the fixed preamble is prepended to the compiler's input.
#[derive(Debug, PartialEq)]
pub struct RenderRequest {
    pub text: String,
    pub key: String,
    pub preamble: bool,
}

/// Spec-level image of a [`RenderRequest`].
pub ghost struct RenderRequestV {
    pub text: Seq<char>,
    pub key: Seq<char>,
    pub preamble: bool,
}

impl View for RenderRequest {
    type V = RenderRequestV;

    open spec fn view(&self) -> RenderRequestV {
        RenderRequestV { text: self.text@, key: self.key@, preamble: self.preamble }
    }
}

impl DeepView for RenderRequest {
    type V = RenderRequestV;

    open spec fn deep_view(&self) -> RenderRequestV {
        self.view()
    }
}

/// The fixed page-geometry directive optionally prepended to a compiler
/// input.
pub open spec fn preamble_v() -> Seq<char> {
    "\n#set page(height: auto, width: 400pt, margin: 0.5cm)\n"@
}

/// The exact text written to the compiler's temporary source file: the
/// preamble (followed by a line feed), if wanted, then the block's source
/// text. The preamble is never part of the cache key.
pub open spec fn spec_compiler_input(text: Seq<char>, preamble: bool) -> Seq<char> {
    if preamble {
        preamble_v() + "\n"@ + text
    } else {
        text
    }
}

/// One compile of the external typesetting compiler, due because no artifact
/// for the block's cache key exists yet.
#[derive(Debug, PartialEq)]
pub struct CompileJob {
    /// Name of the temporary source file, under the `typst-src` subdirectory.
    pub source_name: String,
    /// Name of the artifact file, under the `typst-img` subdirectory.
    pub artifact_name: String,
    /// The full text of the temporary source file.
    pub input: String,
}

/// The subdirectory that holds temporary compiler inputs.
pub fn source_subdir() -> (r: &'static str)
    ensures
        r@ == "typst-src"@,
{
    "typst-src"
}

/// The subdirectory that holds cached artifacts.
pub fn artifact_subdir() -> (r: &'static str)
    ensures
        r@ == "typst-img"@,
{
    "typst-img"
}

/// The artifact file name for a cache key.
pub fn artifact_file_name(key: &str) -> (r: String)
    ensures
        r@ == key@ + ".svg"@,
{
    let mut name = String::from_str(key);
    name.append(".svg");
    name
}

/// The temporary source file name for a cache key.
pub fn source_file_name(key: &str) -> (r: String)
    ensures
        r@ == key@ + ".typ"@,
{
    let mut name = String::from_str(key);
    name.append(".typ");
    name
}

/// The exact compiler input text for a block, mirroring
/// [`spec_compiler_input`].
pub fn compiler_input(text: &str, preamble: bool) -> (r: String)
    ensures
        r@ == spec_compiler_input(text@, preamble),
{
    if preamble {
        let mut s = String::from_str("\n#set page(height: auto, width: 400pt, margin: 0.5cm)\n");
        s.append("\n");
        s.append(text);
        s
    } else {
        String::from_str(text)
    }
}

/// Decides one render: a compile is due exactly when no artifact for the
/// request's cache key exists yet; identical source text maps to the same
/// key, so a present artifact is reused and the compiler is never invoked.
pub fn plan_render(req: &RenderRequest, artifact_exists: bool) -> (r: Option<CompileJob>)
    ensures
        r is Some <==> !artifact_exists,
        r matches Some(job) ==> {
            &&& job.source_name@ == req.key@ + ".typ"@
            &&& job.artifact_name@ == req.key@ + ".svg"@
            &&& job.input@ == spec_compiler_input(req.text@, req.preamble)
        },
{
    if artifact_exists {
        None
    } else {
        Some(
            CompileJob {
                source_name: source_file_name(req.key.as_str()),
                artifact_name: artifact_file_name(req.key.as_str()),
                input: compiler_input(req.text.as_str(), req.preamble),
            },
        )
    }
}

/// The external compiler's exact argument list: compile the temporary source,
/// with the given root directory, into the artifact path, with a font search
/// path appended when one exists.
pub fn compiler_args(source_path: &str, root: &str, output_path: &str, font_path: Option<&str>) -> (r:
    Vec<String>)
    ensures
        font_path matches Some(fp) ==> r.deep_view() =~= seq![
            "c"@,
            source_path@,
            "--root"@,
            root@,
            output_path@,
            "--font-path"@,
            fp@,
        ],
        font_path is None ==> r.deep_view() =~= seq![
            "c"@,
            source_path@,
            "--root"@,
            root@,
            output_path@,
        ],
{
    let mut args: Vec<String> = Vec::new();
    args.push(String::from_str("c"));
    args.push(String::from_str(source_path));
    args.push(String::from_str("--root"));
    args.push(String::from_str(root));
    args.push(String::from_str(output_path));
    match font_path {
        Some(fp) => {
            args.push(String::from_str("--font-path"));
            args.push(String::from_str(fp));
            assert(args.deep_view() =~= seq![
                "c"@,
                source_path@,
                "--root"@,
                root@,
                output_path@,
                "--font-path"@,
                fp@,
            ]);
        },
        None => {
            assert(args.deep_view() =~= seq!["c"@, source_path@, "--root"@, root@, output_path@]);
        },
    }
    args
}

/// Render cache idempotence: two renders of identical source text compute
/// identical cache keys, hence identical artifact names; once the first
/// render's artifact exists, a later identical render plans no compile.
pub proof fn lemma_render_cache_idempotent(r1: RenderRequestV, r2: RenderRequestV)
    requires
        r1.text == r2.text,
        r1.key == sha256_hex_of(r1.text),
        r2.key == sha256_hex_of(r2.text),
    ensures
        r1.key == r2.key,
        r1.key + ".svg"@ == r2.key + ".svg"@,
{
}

} // verus!
