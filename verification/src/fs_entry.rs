//! File-system entries: their category, their size and age labels.
use vstd::prelude::*;
use crate::external::{display_name, extension_of, name_of_path, path_extension};
use crate::sorting::stable_sorted;
use crate::table::{sort_entries, table_key_fn, SortField, SortOrder};
use crate::numeric::{fixed_point, nearest_double, nearest_double_exec, push_fixed_point};
use crate::text::{ascii_lower, ascii_lower_seq, ascii_lowercase_chars, chars_equal, decimal, decimal_string, push_decimal};

verus! {

/// The kind of an entry, as shown by its badge.
#[derive(Debug, Clone, Copy, PartialEq, Eq, Structural)]
pub enum FileCategory {
    Directory,
    Rust,
    JavaScript,
    TypeScript,
    Python,
    Go,
    C,
    Cpp,
    Html,
    Css,
    Json,
    Toml,
    Yaml,
    Markdown,
    Image,
    Audio,
    Video,
    Archive,
    Executable,
    Document,
    Other,
}

/// The category of a file whose extension, already lower-cased, is `e`.
pub open spec fn extension_category(e: Seq<char>) -> FileCategory {
    if e == "rs"@ {
        FileCategory::Rust
    } else if e == "js"@ || e == "mjs"@ || e == "cjs"@ || e == "jsx"@ {
        FileCategory::JavaScript
    } else if e == "ts"@ || e == "mts"@ || e == "cts"@ || e == "tsx"@ {
        FileCategory::TypeScript
    } else if e == "py"@ || e == "pyw"@ || e == "ipynb"@ {
        FileCategory::Python
    } else if e == "go"@ {
        FileCategory::Go
    } else if e == "c"@ || e == "h"@ {
        FileCategory::C
    } else if e == "cpp"@ || e == "cxx"@ || e == "cc"@ || e == "hpp"@ || e == "hxx"@ {
        FileCategory::Cpp
    } else if e == "html"@ || e == "htm"@ {
        FileCategory::Html
    } else if e == "css"@ || e == "scss"@ || e == "sass"@ || e == "less"@ {
        FileCategory::Css
    } else if e == "json"@ {
        FileCategory::Json
    } else if e == "toml"@ {
        FileCategory::Toml
    } else if e == "yaml"@ || e == "yml"@ {
        FileCategory::Yaml
    } else if e == "md"@ || e == "markdown"@ || e == "mdx"@ {
        FileCategory::Markdown
    } else if e == "png"@ || e == "jpg"@ || e == "jpeg"@ || e == "gif"@ || e == "svg"@ || e
        == "webp"@ || e == "ico"@ {
        FileCategory::Image
    } else if e == "mp3"@ || e == "wav"@ || e == "ogg"@ || e == "flac"@ || e == "m4a"@ {
        FileCategory::Audio
    } else if e == "mp4"@ || e == "mkv"@ || e == "webm"@ || e == "mov"@ || e == "avi"@ {
        FileCategory::Video
    } else if e == "zip"@ || e == "tar"@ || e == "gz"@ || e == "7z"@ || e == "rar"@ || e
        == "bz2"@ || e == "xz"@ {
        FileCategory::Archive
    } else if e == "exe"@ || e == "bin"@ || e == "sh"@ || e == "bash"@ || e == "bat"@ || e
        == "cmd"@ {
        FileCategory::Executable
    } else if e == "pdf"@ || e == "doc"@ || e == "docx"@ || e == "txt"@ || e == "rtf"@ {
        FileCategory::Document
    } else {
        FileCategory::Other
    }
}

/// The category of an entry: directories are `Directory` whatever their name;
/// a file goes by its extension, compared without regard to ASCII case.
pub open spec fn category_spec(ext: Option<Seq<char>>, is_dir: bool) -> FileCategory {
    if is_dir {
        FileCategory::Directory
    } else {
        match ext {
            Some(e) => extension_category(ascii_lower_seq(e)),
            None => FileCategory::Other,
        }
    }
}

/// The category of a file does not depend on the ASCII case of its extension.
pub proof fn lemma_category_ignores_ascii_case(e: Seq<char>, is_dir: bool)
    ensures
        category_spec(Some(e), is_dir) == category_spec(Some(ascii_lower_seq(e)), is_dir),
{
    assert forall|i: int| 0 <= i < e.len() implies #[trigger] ascii_lower(ascii_lower(e[i]))
        == ascii_lower(e[i]) by {
        let c = e[i];
        if 'A' <= c && c <= 'Z' {
            let l = ((c as int) + 32) as char;
            assert(l as int == (c as int) + 32);
        }
    }
    assert(ascii_lower_seq(ascii_lower_seq(e)) =~= ascii_lower_seq(e));
}

/// A directory is classed `Directory` whatever its name, and a file without
/// an extension `Other`.
pub proof fn lemma_directories_and_bare_files(ext: Option<Seq<char>>)
    ensures
        category_spec(ext, true) == FileCategory::Directory,
        category_spec(None, false) == FileCategory::Other,
{
}

/// An extension written in lower case is its own ASCII lower-casing.
proof fn lemma_lower_case_text(e: Seq<char>)
    requires
        forall|i: int| 0 <= i < e.len() ==> !('A' <= #[trigger] e[i] && e[i] <= 'Z'),
    ensures
        ascii_lower_seq(e) == e,
{
    assert(ascii_lower_seq(e) =~= e);
}

/// Files with the extension `rs` are classed `Rust`.
pub proof fn lemma_rust_extensions()
    ensures
        category_spec(Some("rs"@), false) == FileCategory::Rust,
{
    reveal_strlit("rs");
    lemma_lower_case_text("rs"@);
}

/// Files with the extension `js`, `mjs`, `cjs`, `jsx` are classed `JavaScript`.
pub proof fn lemma_java_script_extensions()
    ensures
        category_spec(Some("js"@), false) == FileCategory::JavaScript,
        category_spec(Some("mjs"@), false) == FileCategory::JavaScript,
        category_spec(Some("cjs"@), false) == FileCategory::JavaScript,
        category_spec(Some("jsx"@), false) == FileCategory::JavaScript,
{
    reveal_strlit("rs");
    reveal_strlit("js");
    reveal_strlit("mjs");
    reveal_strlit("cjs");
    reveal_strlit("jsx");
    lemma_lower_case_text("js"@);
    assert("js"@[0] != "rs"@[0]);
    lemma_lower_case_text("mjs"@);
    lemma_lower_case_text("cjs"@);
    lemma_lower_case_text("jsx"@);
}

/// Files with the extension `ts`, `mts`, `cts`, `tsx` are classed `TypeScript`.
pub proof fn lemma_type_script_extensions()
    ensures
        category_spec(Some("ts"@), false) == FileCategory::TypeScript,
        category_spec(Some("mts"@), false) == FileCategory::TypeScript,
        category_spec(Some("cts"@), false) == FileCategory::TypeScript,
        category_spec(Some("tsx"@), false) == FileCategory::TypeScript,
{
    reveal_strlit("rs");
    reveal_strlit("js");
    reveal_strlit("mjs");
    reveal_strlit("cjs");
    reveal_strlit("jsx");
    reveal_strlit("ts");
    reveal_strlit("mts");
    reveal_strlit("cts");
    reveal_strlit("tsx");
    lemma_lower_case_text("ts"@);
    assert("ts"@[0] != "rs"@[0]);
    assert("ts"@[0] != "js"@[0]);
    lemma_lower_case_text("mts"@);
    assert("mts"@[1] != "mjs"@[1]);
    assert("mts"@[0] != "cjs"@[0]);
    assert("mts"@[0] != "jsx"@[0]);
    lemma_lower_case_text("cts"@);
    assert("cts"@[0] != "mjs"@[0]);
    assert("cts"@[1] != "cjs"@[1]);
    assert("cts"@[0] != "jsx"@[0]);
    lemma_lower_case_text("tsx"@);
    assert("tsx"@[0] != "mjs"@[0]);
    assert("tsx"@[0] != "cjs"@[0]);
    assert("tsx"@[0] != "jsx"@[0]);
}

/// Files with the extension `py`, `pyw`, `ipynb` are classed `Python`.
pub proof fn lemma_python_extensions()
    ensures
        category_spec(Some("py"@), false) == FileCategory::Python,
        category_spec(Some("pyw"@), false) == FileCategory::Python,
        category_spec(Some("ipynb"@), false) == FileCategory::Python,
{
    reveal_strlit("rs");
    reveal_strlit("js");
    reveal_strlit("mjs");
    reveal_strlit("cjs");
    reveal_strlit("jsx");
    reveal_strlit("ts");
    reveal_strlit("mts");
    reveal_strlit("cts");
    reveal_strlit("tsx");
    reveal_strlit("py");
    reveal_strlit("pyw");
    reveal_strlit("ipynb");
    lemma_lower_case_text("py"@);
    assert("py"@[0] != "rs"@[0]);
    assert("py"@[0] != "js"@[0]);
    assert("py"@[0] != "ts"@[0]);
    lemma_lower_case_text("pyw"@);
    assert("pyw"@[0] != "mjs"@[0]);
    assert("pyw"@[0] != "cjs"@[0]);
    assert("pyw"@[0] != "jsx"@[0]);
    assert("pyw"@[0] != "mts"@[0]);
    assert("pyw"@[0] != "cts"@[0]);
    assert("pyw"@[0] != "tsx"@[0]);
    lemma_lower_case_text("ipynb"@);
}

/// Files with the extension `go` are classed `Go`.
pub proof fn lemma_go_extensions()
    ensures
        category_spec(Some("go"@), false) == FileCategory::Go,
{
    reveal_strlit("rs");
    reveal_strlit("js");
    reveal_strlit("mjs");
    reveal_strlit("cjs");
    reveal_strlit("jsx");
    reveal_strlit("ts");
    reveal_strlit("mts");
    reveal_strlit("cts");
    reveal_strlit("tsx");
    reveal_strlit("py");
    reveal_strlit("pyw");
    reveal_strlit("ipynb");
    reveal_strlit("go");
    lemma_lower_case_text("go"@);
    assert("go"@[0] != "rs"@[0]);
    assert("go"@[0] != "js"@[0]);
    assert("go"@[0] != "ts"@[0]);
    assert("go"@[0] != "py"@[0]);
}

/// Files with the extension `c`, `h` are classed `C`.
pub proof fn lemma_c_extensions()
    ensures
        category_spec(Some("c"@), false) == FileCategory::C,
        category_spec(Some("h"@), false) == FileCategory::C,
{
    reveal_strlit("rs");
    reveal_strlit("js");
    reveal_strlit("mjs");
    reveal_strlit("cjs");
    reveal_strlit("jsx");
    reveal_strlit("ts");
    reveal_strlit("mts");
    reveal_strlit("cts");
    reveal_strlit("tsx");
    reveal_strlit("py");
    reveal_strlit("pyw");
    reveal_strlit("ipynb");
    reveal_strlit("go");
    reveal_strlit("c");
    reveal_strlit("h");
    lemma_lower_case_text("c"@);
    lemma_lower_case_text("h"@);
}

/// Files with the extension `cpp`, `cxx`, `cc`, `hpp`, `hxx` are classed `Cpp`.
pub proof fn lemma_cpp_extensions()
    ensures
        category_spec(Some("cpp"@), false) == FileCategory::Cpp,
        category_spec(Some("cxx"@), false) == FileCategory::Cpp,
        category_spec(Some("cc"@), false) == FileCategory::Cpp,
        category_spec(Some("hpp"@), false) == FileCategory::Cpp,
        category_spec(Some("hxx"@), false) == FileCategory::Cpp,
{
    reveal_strlit("rs");
    reveal_strlit("js");
    reveal_strlit("mjs");
    reveal_strlit("cjs");
    reveal_strlit("jsx");
    reveal_strlit("ts");
    reveal_strlit("mts");
    reveal_strlit("cts");
    reveal_strlit("tsx");
    reveal_strlit("py");
    reveal_strlit("pyw");
    reveal_strlit("ipynb");
    reveal_strlit("go");
    reveal_strlit("c");
    reveal_strlit("h");
    reveal_strlit("cpp");
    reveal_strlit("cxx");
    reveal_strlit("cc");
    reveal_strlit("hpp");
    reveal_strlit("hxx");
    lemma_lower_case_text("cpp"@);
    assert("cpp"@[0] != "mjs"@[0]);
    assert("cpp"@[1] != "cjs"@[1]);
    assert("cpp"@[0] != "jsx"@[0]);
    assert("cpp"@[0] != "mts"@[0]);
    assert("cpp"@[1] != "cts"@[1]);
    assert("cpp"@[0] != "tsx"@[0]);
    assert("cpp"@[0] != "pyw"@[0]);
    lemma_lower_case_text("cxx"@);
    assert("cxx"@[0] != "mjs"@[0]);
    assert("cxx"@[1] != "cjs"@[1]);
    assert("cxx"@[0] != "jsx"@[0]);
    assert("cxx"@[0] != "mts"@[0]);
    assert("cxx"@[1] != "cts"@[1]);
    assert("cxx"@[0] != "tsx"@[0]);
    assert("cxx"@[0] != "pyw"@[0]);
    lemma_lower_case_text("cc"@);
    assert("cc"@[0] != "rs"@[0]);
    assert("cc"@[0] != "js"@[0]);
    assert("cc"@[0] != "ts"@[0]);
    assert("cc"@[0] != "py"@[0]);
    assert("cc"@[0] != "go"@[0]);
    lemma_lower_case_text("hpp"@);
    assert("hpp"@[0] != "mjs"@[0]);
    assert("hpp"@[0] != "cjs"@[0]);
    assert("hpp"@[0] != "jsx"@[0]);
    assert("hpp"@[0] != "mts"@[0]);
    assert("hpp"@[0] != "cts"@[0]);
    assert("hpp"@[0] != "tsx"@[0]);
    assert("hpp"@[0] != "pyw"@[0]);
    lemma_lower_case_text("hxx"@);
    assert("hxx"@[0] != "mjs"@[0]);
    assert("hxx"@[0] != "cjs"@[0]);
    assert("hxx"@[0] != "jsx"@[0]);
    assert("hxx"@[0] != "mts"@[0]);
    assert("hxx"@[0] != "cts"@[0]);
    assert("hxx"@[0] != "tsx"@[0]);
    assert("hxx"@[0] != "pyw"@[0]);
}

/// Files with the extension `html`, `htm` are classed `Html`.
pub proof fn lemma_html_extensions()
    ensures
        category_spec(Some("html"@), false) == FileCategory::Html,
        category_spec(Some("htm"@), false) == FileCategory::Html,
{
    reveal_strlit("rs");
    reveal_strlit("js");
    reveal_strlit("mjs");
    reveal_strlit("cjs");
    reveal_strlit("jsx");
    reveal_strlit("ts");
    reveal_strlit("mts");
    reveal_strlit("cts");
    reveal_strlit("tsx");
    reveal_strlit("py");
    reveal_strlit("pyw");
    reveal_strlit("ipynb");
    reveal_strlit("go");
    reveal_strlit("c");
    reveal_strlit("h");
    reveal_strlit("cpp");
    reveal_strlit("cxx");
    reveal_strlit("cc");
    reveal_strlit("hpp");
    reveal_strlit("hxx");
    reveal_strlit("html");
    reveal_strlit("htm");
    lemma_lower_case_text("html"@);
    lemma_lower_case_text("htm"@);
    assert("htm"@[0] != "mjs"@[0]);
    assert("htm"@[0] != "cjs"@[0]);
    assert("htm"@[0] != "jsx"@[0]);
    assert("htm"@[0] != "mts"@[0]);
    assert("htm"@[0] != "cts"@[0]);
    assert("htm"@[0] != "tsx"@[0]);
    assert("htm"@[0] != "pyw"@[0]);
    assert("htm"@[0] != "cpp"@[0]);
    assert("htm"@[0] != "cxx"@[0]);
    assert("htm"@[1] != "hpp"@[1]);
    assert("htm"@[1] != "hxx"@[1]);
}

/// Files with the extension `css`, `scss`, `sass`, `less` are classed `Css`.
pub proof fn lemma_css_extensions()
    ensures
        category_spec(Some("css"@), false) == FileCategory::Css,
        category_spec(Some("scss"@), false) == FileCategory::Css,
        category_spec(Some("sass"@), false) == FileCategory::Css,
        category_spec(Some("less"@), false) == FileCategory::Css,
{
    reveal_strlit("rs");
    reveal_strlit("js");
    reveal_strlit("mjs");
    reveal_strlit("cjs");
    reveal_strlit("jsx");
    reveal_strlit("ts");
    reveal_strlit("mts");
    reveal_strlit("cts");
    reveal_strlit("tsx");
    reveal_strlit("py");
    reveal_strlit("pyw");
    reveal_strlit("ipynb");
    reveal_strlit("go");
    reveal_strlit("c");
    reveal_strlit("h");
    reveal_strlit("cpp");
    reveal_strlit("cxx");
    reveal_strlit("cc");
    reveal_strlit("hpp");
    reveal_strlit("hxx");
    reveal_strlit("html");
    reveal_strlit("htm");
    reveal_strlit("css");
    reveal_strlit("scss");
    reveal_strlit("sass");
    reveal_strlit("less");
    lemma_lower_case_text("css"@);
    assert("css"@[0] != "mjs"@[0]);
    assert("css"@[1] != "cjs"@[1]);
    assert("css"@[0] != "jsx"@[0]);
    assert("css"@[0] != "mts"@[0]);
    assert("css"@[1] != "cts"@[1]);
    assert("css"@[0] != "tsx"@[0]);
    assert("css"@[0] != "pyw"@[0]);
    assert("css"@[1] != "cpp"@[1]);
    assert("css"@[1] != "cxx"@[1]);
    assert("css"@[0] != "hpp"@[0]);
    assert("css"@[0] != "hxx"@[0]);
    assert("css"@[0] != "htm"@[0]);
    lemma_lower_case_text("scss"@);
    assert("scss"@[0] != "html"@[0]);
    lemma_lower_case_text("sass"@);
    assert("sass"@[0] != "html"@[0]);
    lemma_lower_case_text("less"@);
    assert("less"@[0] != "html"@[0]);
}

/// Files with the extension `json` are classed `Json`.
pub proof fn lemma_json_extensions()
    ensures
        category_spec(Some("json"@), false) == FileCategory::Json,
{
    reveal_strlit("rs");
    reveal_strlit("js");
    reveal_strlit("mjs");
    reveal_strlit("cjs");
    reveal_strlit("jsx");
    reveal_strlit("ts");
    reveal_strlit("mts");
    reveal_strlit("cts");
    reveal_strlit("tsx");
    reveal_strlit("py");
    reveal_strlit("pyw");
    reveal_strlit("ipynb");
    reveal_strlit("go");
    reveal_strlit("c");
    reveal_strlit("h");
    reveal_strlit("cpp");
    reveal_strlit("cxx");
    reveal_strlit("cc");
    reveal_strlit("hpp");
    reveal_strlit("hxx");
    reveal_strlit("html");
    reveal_strlit("htm");
    reveal_strlit("css");
    reveal_strlit("scss");
    reveal_strlit("sass");
    reveal_strlit("less");
    reveal_strlit("json");
    lemma_lower_case_text("json"@);
    assert("json"@[0] != "html"@[0]);
    assert("json"@[0] != "scss"@[0]);
    assert("json"@[0] != "sass"@[0]);
    assert("json"@[0] != "less"@[0]);
}

/// Files with the extension `toml` are classed `Toml`.
pub proof fn lemma_toml_extensions()
    ensures
        category_spec(Some("toml"@), false) == FileCategory::Toml,
{
    reveal_strlit("rs");
    reveal_strlit("js");
    reveal_strlit("mjs");
    reveal_strlit("cjs");
    reveal_strlit("jsx");
    reveal_strlit("ts");
    reveal_strlit("mts");
    reveal_strlit("cts");
    reveal_strlit("tsx");
    reveal_strlit("py");
    reveal_strlit("pyw");
    reveal_strlit("ipynb");
    reveal_strlit("go");
    reveal_strlit("c");
    reveal_strlit("h");
    reveal_strlit("cpp");
    reveal_strlit("cxx");
    reveal_strlit("cc");
    reveal_strlit("hpp");
    reveal_strlit("hxx");
    reveal_strlit("html");
    reveal_strlit("htm");
    reveal_strlit("css");
    reveal_strlit("scss");
    reveal_strlit("sass");
    reveal_strlit("less");
    reveal_strlit("json");
    reveal_strlit("toml");
    lemma_lower_case_text("toml"@);
    assert("toml"@[0] != "html"@[0]);
    assert("toml"@[0] != "scss"@[0]);
    assert("toml"@[0] != "sass"@[0]);
    assert("toml"@[0] != "less"@[0]);
    assert("toml"@[0] != "json"@[0]);
}

/// Files with the extension `yaml`, `yml` are classed `Yaml`.
pub proof fn lemma_yaml_extensions()
    ensures
        category_spec(Some("yaml"@), false) == FileCategory::Yaml,
        category_spec(Some("yml"@), false) == FileCategory::Yaml,
{
    reveal_strlit("rs");
    reveal_strlit("js");
    reveal_strlit("mjs");
    reveal_strlit("cjs");
    reveal_strlit("jsx");
    reveal_strlit("ts");
    reveal_strlit("mts");
    reveal_strlit("cts");
    reveal_strlit("tsx");
    reveal_strlit("py");
    reveal_strlit("pyw");
    reveal_strlit("ipynb");
    reveal_strlit("go");
    reveal_strlit("c");
    reveal_strlit("h");
    reveal_strlit("cpp");
    reveal_strlit("cxx");
    reveal_strlit("cc");
    reveal_strlit("hpp");
    reveal_strlit("hxx");
    reveal_strlit("html");
    reveal_strlit("htm");
    reveal_strlit("css");
    reveal_strlit("scss");
    reveal_strlit("sass");
    reveal_strlit("less");
    reveal_strlit("json");
    reveal_strlit("toml");
    reveal_strlit("yaml");
    reveal_strlit("yml");
    lemma_lower_case_text("yaml"@);
    assert("yaml"@[0] != "html"@[0]);
    assert("yaml"@[0] != "scss"@[0]);
    assert("yaml"@[0] != "sass"@[0]);
    assert("yaml"@[0] != "less"@[0]);
    assert("yaml"@[0] != "json"@[0]);
    assert("yaml"@[0] != "toml"@[0]);
    lemma_lower_case_text("yml"@);
    assert("yml"@[0] != "mjs"@[0]);
    assert("yml"@[0] != "cjs"@[0]);
    assert("yml"@[0] != "jsx"@[0]);
    assert("yml"@[0] != "mts"@[0]);
    assert("yml"@[0] != "cts"@[0]);
    assert("yml"@[0] != "tsx"@[0]);
    assert("yml"@[0] != "pyw"@[0]);
    assert("yml"@[0] != "cpp"@[0]);
    assert("yml"@[0] != "cxx"@[0]);
    assert("yml"@[0] != "hpp"@[0]);
    assert("yml"@[0] != "hxx"@[0]);
    assert("yml"@[0] != "htm"@[0]);
    assert("yml"@[0] != "css"@[0]);
}

/// Files with the extension `md`, `markdown`, `mdx` are classed `Markdown`.
pub proof fn lemma_markdown_extensions()
    ensures
        category_spec(Some("md"@), false) == FileCategory::Markdown,
        category_spec(Some("markdown"@), false) == FileCategory::Markdown,
        category_spec(Some("mdx"@), false) == FileCategory::Markdown,
{
    reveal_strlit("rs");
    reveal_strlit("js");
    reveal_strlit("mjs");
    reveal_strlit("cjs");
    reveal_strlit("jsx");
    reveal_strlit("ts");
    reveal_strlit("mts");
    reveal_strlit("cts");
    reveal_strlit("tsx");
    reveal_strlit("py");
    reveal_strlit("pyw");
    reveal_strlit("ipynb");
    reveal_strlit("go");
    reveal_strlit("c");
    reveal_strlit("h");
    reveal_strlit("cpp");
    reveal_strlit("cxx");
    reveal_strlit("cc");
    reveal_strlit("hpp");
    reveal_strlit("hxx");
    reveal_strlit("html");
    reveal_strlit("htm");
    reveal_strlit("css");
    reveal_strlit("scss");
    reveal_strlit("sass");
    reveal_strlit("less");
    reveal_strlit("json");
    reveal_strlit("toml");
    reveal_strlit("yaml");
    reveal_strlit("yml");
    reveal_strlit("md");
    reveal_strlit("markdown");
    reveal_strlit("mdx");
    lemma_lower_case_text("md"@);
    assert("md"@[0] != "rs"@[0]);
    assert("md"@[0] != "js"@[0]);
    assert("md"@[0] != "ts"@[0]);
    assert("md"@[0] != "py"@[0]);
    assert("md"@[0] != "go"@[0]);
    assert("md"@[0] != "cc"@[0]);
    lemma_lower_case_text("markdown"@);
    lemma_lower_case_text("mdx"@);
    assert("mdx"@[1] != "mjs"@[1]);
    assert("mdx"@[0] != "cjs"@[0]);
    assert("mdx"@[0] != "jsx"@[0]);
    assert("mdx"@[1] != "mts"@[1]);
    assert("mdx"@[0] != "cts"@[0]);
    assert("mdx"@[0] != "tsx"@[0]);
    assert("mdx"@[0] != "pyw"@[0]);
    assert("mdx"@[0] != "cpp"@[0]);
    assert("mdx"@[0] != "cxx"@[0]);
    assert("mdx"@[0] != "hpp"@[0]);
    assert("mdx"@[0] != "hxx"@[0]);
    assert("mdx"@[0] != "htm"@[0]);
    assert("mdx"@[0] != "css"@[0]);
    assert("mdx"@[0] != "yml"@[0]);
}

/// Files with the extension `png`, `jpg`, `jpeg`, `gif`, `svg`, `webp`, `ico` are classed `Image`.
pub proof fn lemma_image_extensions()
    ensures
        category_spec(Some("png"@), false) == FileCategory::Image,
        category_spec(Some("jpg"@), false) == FileCategory::Image,
        category_spec(Some("jpeg"@), false) == FileCategory::Image,
        category_spec(Some("gif"@), false) == FileCategory::Image,
        category_spec(Some("svg"@), false) == FileCategory::Image,
        category_spec(Some("webp"@), false) == FileCategory::Image,
        category_spec(Some("ico"@), false) == FileCategory::Image,
{
    reveal_strlit("rs");
    reveal_strlit("js");
    reveal_strlit("mjs");
    reveal_strlit("cjs");
    reveal_strlit("jsx");
    reveal_strlit("ts");
    reveal_strlit("mts");
    reveal_strlit("cts");
    reveal_strlit("tsx");
    reveal_strlit("py");
    reveal_strlit("pyw");
    reveal_strlit("ipynb");
    reveal_strlit("go");
    reveal_strlit("c");
    reveal_strlit("h");
    reveal_strlit("cpp");
    reveal_strlit("cxx");
    reveal_strlit("cc");
    reveal_strlit("hpp");
    reveal_strlit("hxx");
    reveal_strlit("html");
    reveal_strlit("htm");
    reveal_strlit("css");
    reveal_strlit("scss");
    reveal_strlit("sass");
    reveal_strlit("less");
    reveal_strlit("json");
    reveal_strlit("toml");
    reveal_strlit("yaml");
    reveal_strlit("yml");
    reveal_strlit("md");
    reveal_strlit("markdown");
    reveal_strlit("mdx");
    reveal_strlit("png");
    reveal_strlit("jpg");
    reveal_strlit("jpeg");
    reveal_strlit("gif");
    reveal_strlit("svg");
    reveal_strlit("webp");
    reveal_strlit("ico");
    lemma_lower_case_text("png"@);
    assert("png"@[0] != "mjs"@[0]);
    assert("png"@[0] != "cjs"@[0]);
    assert("png"@[0] != "jsx"@[0]);
    assert("png"@[0] != "mts"@[0]);
    assert("png"@[0] != "cts"@[0]);
    assert("png"@[0] != "tsx"@[0]);
    assert("png"@[1] != "pyw"@[1]);
    assert("png"@[0] != "cpp"@[0]);
    assert("png"@[0] != "cxx"@[0]);
    assert("png"@[0] != "hpp"@[0]);
    assert("png"@[0] != "hxx"@[0]);
    assert("png"@[0] != "htm"@[0]);
    assert("png"@[0] != "css"@[0]);
    assert("png"@[0] != "yml"@[0]);
    assert("png"@[0] != "mdx"@[0]);
    lemma_lower_case_text("jpg"@);
    assert("jpg"@[0] != "mjs"@[0]);
    assert("jpg"@[0] != "cjs"@[0]);
    assert("jpg"@[1] != "jsx"@[1]);
    assert("jpg"@[0] != "mts"@[0]);
    assert("jpg"@[0] != "cts"@[0]);
    assert("jpg"@[0] != "tsx"@[0]);
    assert("jpg"@[0] != "pyw"@[0]);
    assert("jpg"@[0] != "cpp"@[0]);
    assert("jpg"@[0] != "cxx"@[0]);
    assert("jpg"@[0] != "hpp"@[0]);
    assert("jpg"@[0] != "hxx"@[0]);
    assert("jpg"@[0] != "htm"@[0]);
    assert("jpg"@[0] != "css"@[0]);
    assert("jpg"@[0] != "yml"@[0]);
    assert("jpg"@[0] != "mdx"@[0]);
    lemma_lower_case_text("jpeg"@);
    assert("jpeg"@[0] != "html"@[0]);
    assert("jpeg"@[0] != "scss"@[0]);
    assert("jpeg"@[0] != "sass"@[0]);
    assert("jpeg"@[0] != "less"@[0]);
    assert("jpeg"@[1] != "json"@[1]);
    assert("jpeg"@[0] != "toml"@[0]);
    assert("jpeg"@[0] != "yaml"@[0]);
    lemma_lower_case_text("gif"@);
    assert("gif"@[0] != "mjs"@[0]);
    assert("gif"@[0] != "cjs"@[0]);
    assert("gif"@[0] != "jsx"@[0]);
    assert("gif"@[0] != "mts"@[0]);
    assert("gif"@[0] != "cts"@[0]);
    assert("gif"@[0] != "tsx"@[0]);
    assert("gif"@[0] != "pyw"@[0]);
    assert("gif"@[0] != "cpp"@[0]);
    assert("gif"@[0] != "cxx"@[0]);
    assert("gif"@[0] != "hpp"@[0]);
    assert("gif"@[0] != "hxx"@[0]);
    assert("gif"@[0] != "htm"@[0]);
    assert("gif"@[0] != "css"@[0]);
    assert("gif"@[0] != "yml"@[0]);
    assert("gif"@[0] != "mdx"@[0]);
    lemma_lower_case_text("svg"@);
    assert("svg"@[0] != "mjs"@[0]);
    assert("svg"@[0] != "cjs"@[0]);
    assert("svg"@[0] != "jsx"@[0]);
    assert("svg"@[0] != "mts"@[0]);
    assert("svg"@[0] != "cts"@[0]);
    assert("svg"@[0] != "tsx"@[0]);
    assert("svg"@[0] != "pyw"@[0]);
    assert("svg"@[0] != "cpp"@[0]);
    assert("svg"@[0] != "cxx"@[0]);
    assert("svg"@[0] != "hpp"@[0]);
    assert("svg"@[0] != "hxx"@[0]);
    assert("svg"@[0] != "htm"@[0]);
    assert("svg"@[0] != "css"@[0]);
    assert("svg"@[0] != "yml"@[0]);
    assert("svg"@[0] != "mdx"@[0]);
    lemma_lower_case_text("webp"@);
    assert("webp"@[0] != "html"@[0]);
    assert("webp"@[0] != "scss"@[0]);
    assert("webp"@[0] != "sass"@[0]);
    assert("webp"@[0] != "less"@[0]);
    assert("webp"@[0] != "json"@[0]);
    assert("webp"@[0] != "toml"@[0]);
    assert("webp"@[0] != "yaml"@[0]);
    lemma_lower_case_text("ico"@);
    assert("ico"@[0] != "mjs"@[0]);
    assert("ico"@[0] != "cjs"@[0]);
    assert("ico"@[0] != "jsx"@[0]);
    assert("ico"@[0] != "mts"@[0]);
    assert("ico"@[0] != "cts"@[0]);
    assert("ico"@[0] != "tsx"@[0]);
    assert("ico"@[0] != "pyw"@[0]);
    assert("ico"@[0] != "cpp"@[0]);
    assert("ico"@[0] != "cxx"@[0]);
    assert("ico"@[0] != "hpp"@[0]);
    assert("ico"@[0] != "hxx"@[0]);
    assert("ico"@[0] != "htm"@[0]);
    assert("ico"@[0] != "css"@[0]);
    assert("ico"@[0] != "yml"@[0]);
    assert("ico"@[0] != "mdx"@[0]);
}

/// Files with the extension `mp3`, `wav`, `ogg`, `flac`, `m4a` are classed `Audio`.
pub proof fn lemma_audio_extensions()
    ensures
        category_spec(Some("mp3"@), false) == FileCategory::Audio,
        category_spec(Some("wav"@), false) == FileCategory::Audio,
        category_spec(Some("ogg"@), false) == FileCategory::Audio,
        category_spec(Some("flac"@), false) == FileCategory::Audio,
        category_spec(Some("m4a"@), false) == FileCategory::Audio,
{
    reveal_strlit("rs");
    reveal_strlit("js");
    reveal_strlit("mjs");
    reveal_strlit("cjs");
    reveal_strlit("jsx");
    reveal_strlit("ts");
    reveal_strlit("mts");
    reveal_strlit("cts");
    reveal_strlit("tsx");
    reveal_strlit("py");
    reveal_strlit("pyw");
    reveal_strlit("ipynb");
    reveal_strlit("go");
    reveal_strlit("c");
    reveal_strlit("h");
    reveal_strlit("cpp");
    reveal_strlit("cxx");
    reveal_strlit("cc");
    reveal_strlit("hpp");
    reveal_strlit("hxx");
    reveal_strlit("html");
    reveal_strlit("htm");
    reveal_strlit("css");
    reveal_strlit("scss");
    reveal_strlit("sass");
    reveal_strlit("less");
    reveal_strlit("json");
    reveal_strlit("toml");
    reveal_strlit("yaml");
    reveal_strlit("yml");
    reveal_strlit("md");
    reveal_strlit("markdown");
    reveal_strlit("mdx");
    reveal_strlit("png");
    reveal_strlit("jpg");
    reveal_strlit("jpeg");
    reveal_strlit("gif");
    reveal_strlit("svg");
    reveal_strlit("webp");
    reveal_strlit("ico");
    reveal_strlit("mp3");
    reveal_strlit("wav");
    reveal_strlit("ogg");
    reveal_strlit("flac");
    reveal_strlit("m4a");
    lemma_lower_case_text("mp3"@);
    assert("mp3"@[1] != "mjs"@[1]);
    assert("mp3"@[0] != "cjs"@[0]);
    assert("mp3"@[0] != "jsx"@[0]);
    assert("mp3"@[1] != "mts"@[1]);
    assert("mp3"@[0] != "cts"@[0]);
    assert("mp3"@[0] != "tsx"@[0]);
    assert("mp3"@[0] != "pyw"@[0]);
    assert("mp3"@[0] != "cpp"@[0]);
    assert("mp3"@[0] != "cxx"@[0]);
    assert("mp3"@[0] != "hpp"@[0]);
    assert("mp3"@[0] != "hxx"@[0]);
    assert("mp3"@[0] != "htm"@[0]);
    assert("mp3"@[0] != "css"@[0]);
    assert("mp3"@[0] != "yml"@[0]);
    assert("mp3"@[1] != "mdx"@[1]);
    assert("mp3"@[0] != "png"@[0]);
    assert("mp3"@[0] != "jpg"@[0]);
    assert("mp3"@[0] != "gif"@[0]);
    assert("mp3"@[0] != "svg"@[0]);
    assert("mp3"@[0] != "ico"@[0]);
    lemma_lower_case_text("wav"@);
    assert("wav"@[0] != "mjs"@[0]);
    assert("wav"@[0] != "cjs"@[0]);
    assert("wav"@[0] != "jsx"@[0]);
    assert("wav"@[0] != "mts"@[0]);
    assert("wav"@[0] != "cts"@[0]);
    assert("wav"@[0] != "tsx"@[0]);
    assert("wav"@[0] != "pyw"@[0]);
    assert("wav"@[0] != "cpp"@[0]);
    assert("wav"@[0] != "cxx"@[0]);
    assert("wav"@[0] != "hpp"@[0]);
    assert("wav"@[0] != "hxx"@[0]);
    assert("wav"@[0] != "htm"@[0]);
    assert("wav"@[0] != "css"@[0]);
    assert("wav"@[0] != "yml"@[0]);
    assert("wav"@[0] != "mdx"@[0]);
    assert("wav"@[0] != "png"@[0]);
    assert("wav"@[0] != "jpg"@[0]);
    assert("wav"@[0] != "gif"@[0]);
    assert("wav"@[0] != "svg"@[0]);
    assert("wav"@[0] != "ico"@[0]);
    lemma_lower_case_text("ogg"@);
    assert("ogg"@[0] != "mjs"@[0]);
    assert("ogg"@[0] != "cjs"@[0]);
    assert("ogg"@[0] != "jsx"@[0]);
    assert("ogg"@[0] != "mts"@[0]);
    assert("ogg"@[0] != "cts"@[0]);
    assert("ogg"@[0] != "tsx"@[0]);
    assert("ogg"@[0] != "pyw"@[0]);
    assert("ogg"@[0] != "cpp"@[0]);
    assert("ogg"@[0] != "cxx"@[0]);
    assert("ogg"@[0] != "hpp"@[0]);
    assert("ogg"@[0] != "hxx"@[0]);
    assert("ogg"@[0] != "htm"@[0]);
    assert("ogg"@[0] != "css"@[0]);
    assert("ogg"@[0] != "yml"@[0]);
    assert("ogg"@[0] != "mdx"@[0]);
    assert("ogg"@[0] != "png"@[0]);
    assert("ogg"@[0] != "jpg"@[0]);
    assert("ogg"@[0] != "gif"@[0]);
    assert("ogg"@[0] != "svg"@[0]);
    assert("ogg"@[0] != "ico"@[0]);
    lemma_lower_case_text("flac"@);
    assert("flac"@[0] != "html"@[0]);
    assert("flac"@[0] != "scss"@[0]);
    assert("flac"@[0] != "sass"@[0]);
    assert("flac"@[0] != "less"@[0]);
    assert("flac"@[0] != "json"@[0]);
    assert("flac"@[0] != "toml"@[0]);
    assert("flac"@[0] != "yaml"@[0]);
    assert("flac"@[0] != "jpeg"@[0]);
    assert("flac"@[0] != "webp"@[0]);
    lemma_lower_case_text("m4a"@);
    assert("m4a"@[1] != "mjs"@[1]);
    assert("m4a"@[0] != "cjs"@[0]);
    assert("m4a"@[0] != "jsx"@[0]);
    assert("m4a"@[1] != "mts"@[1]);
    assert("m4a"@[0] != "cts"@[0]);
    assert("m4a"@[0] != "tsx"@[0]);
    assert("m4a"@[0] != "pyw"@[0]);
    assert("m4a"@[0] != "cpp"@[0]);
    assert("m4a"@[0] != "cxx"@[0]);
    assert("m4a"@[0] != "hpp"@[0]);
    assert("m4a"@[0] != "hxx"@[0]);
    assert("m4a"@[0] != "htm"@[0]);
    assert("m4a"@[0] != "css"@[0]);
    assert("m4a"@[0] != "yml"@[0]);
    assert("m4a"@[1] != "mdx"@[1]);
    assert("m4a"@[0] != "png"@[0]);
    assert("m4a"@[0] != "jpg"@[0]);
    assert("m4a"@[0] != "gif"@[0]);
    assert("m4a"@[0] != "svg"@[0]);
    assert("m4a"@[0] != "ico"@[0]);
}

/// Files with the extension `mp4`, `mkv`, `webm`, `mov`, `avi` are classed `Video`.
pub proof fn lemma_video_extensions()
    ensures
        category_spec(Some("mp4"@), false) == FileCategory::Video,
        category_spec(Some("mkv"@), false) == FileCategory::Video,
        category_spec(Some("webm"@), false) == FileCategory::Video,
        category_spec(Some("mov"@), false) == FileCategory::Video,
        category_spec(Some("avi"@), false) == FileCategory::Video,
{
    reveal_strlit("rs");
    reveal_strlit("js");
    reveal_strlit("mjs");
    reveal_strlit("cjs");
    reveal_strlit("jsx");
    reveal_strlit("ts");
    reveal_strlit("mts");
    reveal_strlit("cts");
    reveal_strlit("tsx");
    reveal_strlit("py");
    reveal_strlit("pyw");
    reveal_strlit("ipynb");
    reveal_strlit("go");
    reveal_strlit("c");
    reveal_strlit("h");
    reveal_strlit("cpp");
    reveal_strlit("cxx");
    reveal_strlit("cc");
    reveal_strlit("hpp");
    reveal_strlit("hxx");
    reveal_strlit("html");
    reveal_strlit("htm");
    reveal_strlit("css");
    reveal_strlit("scss");
    reveal_strlit("sass");
    reveal_strlit("less");
    reveal_strlit("json");
    reveal_strlit("toml");
    reveal_strlit("yaml");
    reveal_strlit("yml");
    reveal_strlit("md");
    reveal_strlit("markdown");
    reveal_strlit("mdx");
    reveal_strlit("png");
    reveal_strlit("jpg");
    reveal_strlit("jpeg");
    reveal_strlit("gif");
    reveal_strlit("svg");
    reveal_strlit("webp");
    reveal_strlit("ico");
    reveal_strlit("mp3");
    reveal_strlit("wav");
    reveal_strlit("ogg");
    reveal_strlit("flac");
    reveal_strlit("m4a");
    reveal_strlit("mp4");
    reveal_strlit("mkv");
    reveal_strlit("webm");
    reveal_strlit("mov");
    reveal_strlit("avi");
    lemma_lower_case_text("mp4"@);
    assert("mp4"@[1] != "mjs"@[1]);
    assert("mp4"@[0] != "cjs"@[0]);
    assert("mp4"@[0] != "jsx"@[0]);
    assert("mp4"@[1] != "mts"@[1]);
    assert("mp4"@[0] != "cts"@[0]);
    assert("mp4"@[0] != "tsx"@[0]);
    assert("mp4"@[0] != "pyw"@[0]);
    assert("mp4"@[0] != "cpp"@[0]);
    assert("mp4"@[0] != "cxx"@[0]);
    assert("mp4"@[0] != "hpp"@[0]);
    assert("mp4"@[0] != "hxx"@[0]);
    assert("mp4"@[0] != "htm"@[0]);
    assert("mp4"@[0] != "css"@[0]);
    assert("mp4"@[0] != "yml"@[0]);
    assert("mp4"@[1] != "mdx"@[1]);
    assert("mp4"@[0] != "png"@[0]);
    assert("mp4"@[0] != "jpg"@[0]);
    assert("mp4"@[0] != "gif"@[0]);
    assert("mp4"@[0] != "svg"@[0]);
    assert("mp4"@[0] != "ico"@[0]);
    assert("mp4"@[2] != "mp3"@[2]);
    assert("mp4"@[0] != "wav"@[0]);
    assert("mp4"@[0] != "ogg"@[0]);
    assert("mp4"@[1] != "m4a"@[1]);
    lemma_lower_case_text("mkv"@);
    assert("mkv"@[1] != "mjs"@[1]);
    assert("mkv"@[0] != "cjs"@[0]);
    assert("mkv"@[0] != "jsx"@[0]);
    assert("mkv"@[1] != "mts"@[1]);
    assert("mkv"@[0] != "cts"@[0]);
    assert("mkv"@[0] != "tsx"@[0]);
    assert("mkv"@[0] != "pyw"@[0]);
    assert("mkv"@[0] != "cpp"@[0]);
    assert("mkv"@[0] != "cxx"@[0]);
    assert("mkv"@[0] != "hpp"@[0]);
    assert("mkv"@[0] != "hxx"@[0]);
    assert("mkv"@[0] != "htm"@[0]);
    assert("mkv"@[0] != "css"@[0]);
    assert("mkv"@[0] != "yml"@[0]);
    assert("mkv"@[1] != "mdx"@[1]);
    assert("mkv"@[0] != "png"@[0]);
    assert("mkv"@[0] != "jpg"@[0]);
    assert("mkv"@[0] != "gif"@[0]);
    assert("mkv"@[0] != "svg"@[0]);
    assert("mkv"@[0] != "ico"@[0]);
    assert("mkv"@[1] != "mp3"@[1]);
    assert("mkv"@[0] != "wav"@[0]);
    assert("mkv"@[0] != "ogg"@[0]);
    assert("mkv"@[1] != "m4a"@[1]);
    lemma_lower_case_text("webm"@);
    assert("webm"@[0] != "html"@[0]);
    assert("webm"@[0] != "scss"@[0]);
    assert("webm"@[0] != "sass"@[0]);
    assert("webm"@[0] != "less"@[0]);
    assert("webm"@[0] != "json"@[0]);
    assert("webm"@[0] != "toml"@[0]);
    assert("webm"@[0] != "yaml"@[0]);
    assert("webm"@[0] != "jpeg"@[0]);
    assert("webm"@[3] != "webp"@[3]);
    assert("webm"@[0] != "flac"@[0]);
    lemma_lower_case_text("mov"@);
    assert("mov"@[1] != "mjs"@[1]);
    assert("mov"@[0] != "cjs"@[0]);
    assert("mov"@[0] != "jsx"@[0]);
    assert("mov"@[1] != "mts"@[1]);
    assert("mov"@[0] != "cts"@[0]);
    assert("mov"@[0] != "tsx"@[0]);
    assert("mov"@[0] != "pyw"@[0]);
    assert("mov"@[0] != "cpp"@[0]);
    assert("mov"@[0] != "cxx"@[0]);
    assert("mov"@[0] != "hpp"@[0]);
    assert("mov"@[0] != "hxx"@[0]);
    assert("mov"@[0] != "htm"@[0]);
    assert("mov"@[0] != "css"@[0]);
    assert("mov"@[0] != "yml"@[0]);
    assert("mov"@[1] != "mdx"@[1]);
    assert("mov"@[0] != "png"@[0]);
    assert("mov"@[0] != "jpg"@[0]);
    assert("mov"@[0] != "gif"@[0]);
    assert("mov"@[0] != "svg"@[0]);
    assert("mov"@[0] != "ico"@[0]);
    assert("mov"@[1] != "mp3"@[1]);
    assert("mov"@[0] != "wav"@[0]);
    assert("mov"@[0] != "ogg"@[0]);
    assert("mov"@[1] != "m4a"@[1]);
    lemma_lower_case_text("avi"@);
    assert("avi"@[0] != "mjs"@[0]);
    assert("avi"@[0] != "cjs"@[0]);
    assert("avi"@[0] != "jsx"@[0]);
    assert("avi"@[0] != "mts"@[0]);
    assert("avi"@[0] != "cts"@[0]);
    assert("avi"@[0] != "tsx"@[0]);
    assert("avi"@[0] != "pyw"@[0]);
    assert("avi"@[0] != "cpp"@[0]);
    assert("avi"@[0] != "cxx"@[0]);
    assert("avi"@[0] != "hpp"@[0]);
    assert("avi"@[0] != "hxx"@[0]);
    assert("avi"@[0] != "htm"@[0]);
    assert("avi"@[0] != "css"@[0]);
    assert("avi"@[0] != "yml"@[0]);
    assert("avi"@[0] != "mdx"@[0]);
    assert("avi"@[0] != "png"@[0]);
    assert("avi"@[0] != "jpg"@[0]);
    assert("avi"@[0] != "gif"@[0]);
    assert("avi"@[0] != "svg"@[0]);
    assert("avi"@[0] != "ico"@[0]);
    assert("avi"@[0] != "mp3"@[0]);
    assert("avi"@[0] != "wav"@[0]);
    assert("avi"@[0] != "ogg"@[0]);
    assert("avi"@[0] != "m4a"@[0]);
}

/// Files with the extension `zip`, `tar`, `gz`, `7z`, `rar`, `bz2`, `xz` are classed `Archive`.
pub proof fn lemma_archive_extensions()
    ensures
        category_spec(Some("zip"@), false) == FileCategory::Archive,
        category_spec(Some("tar"@), false) == FileCategory::Archive,
        category_spec(Some("gz"@), false) == FileCategory::Archive,
        category_spec(Some("7z"@), false) == FileCategory::Archive,
        category_spec(Some("rar"@), false) == FileCategory::Archive,
        category_spec(Some("bz2"@), false) == FileCategory::Archive,
        category_spec(Some("xz"@), false) == FileCategory::Archive,
{
    reveal_strlit("rs");
    reveal_strlit("js");
    reveal_strlit("mjs");
    reveal_strlit("cjs");
    reveal_strlit("jsx");
    reveal_strlit("ts");
    reveal_strlit("mts");
    reveal_strlit("cts");
    reveal_strlit("tsx");
    reveal_strlit("py");
    reveal_strlit("pyw");
    reveal_strlit("ipynb");
    reveal_strlit("go");
    reveal_strlit("c");
    reveal_strlit("h");
    reveal_strlit("cpp");
    reveal_strlit("cxx");
    reveal_strlit("cc");
    reveal_strlit("hpp");
    reveal_strlit("hxx");
    reveal_strlit("html");
    reveal_strlit("htm");
    reveal_strlit("css");
    reveal_strlit("scss");
    reveal_strlit("sass");
    reveal_strlit("less");
    reveal_strlit("json");
    reveal_strlit("toml");
    reveal_strlit("yaml");
    reveal_strlit("yml");
    reveal_strlit("md");
    reveal_strlit("markdown");
    reveal_strlit("mdx");
    reveal_strlit("png");
    reveal_strlit("jpg");
    reveal_strlit("jpeg");
    reveal_strlit("gif");
    reveal_strlit("svg");
    reveal_strlit("webp");
    reveal_strlit("ico");
    reveal_strlit("mp3");
    reveal_strlit("wav");
    reveal_strlit("ogg");
    reveal_strlit("flac");
    reveal_strlit("m4a");
    reveal_strlit("mp4");
    reveal_strlit("mkv");
    reveal_strlit("webm");
    reveal_strlit("mov");
    reveal_strlit("avi");
    reveal_strlit("zip");
    reveal_strlit("tar");
    reveal_strlit("gz");
    reveal_strlit("7z");
    reveal_strlit("rar");
    reveal_strlit("bz2");
    reveal_strlit("xz");
    lemma_lower_case_text("zip"@);
    assert("zip"@[0] != "mjs"@[0]);
    assert("zip"@[0] != "cjs"@[0]);
    assert("zip"@[0] != "jsx"@[0]);
    assert("zip"@[0] != "mts"@[0]);
    assert("zip"@[0] != "cts"@[0]);
    assert("zip"@[0] != "tsx"@[0]);
    assert("zip"@[0] != "pyw"@[0]);
    assert("zip"@[0] != "cpp"@[0]);
    assert("zip"@[0] != "cxx"@[0]);
    assert("zip"@[0] != "hpp"@[0]);
    assert("zip"@[0] != "hxx"@[0]);
    assert("zip"@[0] != "htm"@[0]);
    assert("zip"@[0] != "css"@[0]);
    assert("zip"@[0] != "yml"@[0]);
    assert("zip"@[0] != "mdx"@[0]);
    assert("zip"@[0] != "png"@[0]);
    assert("zip"@[0] != "jpg"@[0]);
    assert("zip"@[0] != "gif"@[0]);
    assert("zip"@[0] != "svg"@[0]);
    assert("zip"@[0] != "ico"@[0]);
    assert("zip"@[0] != "mp3"@[0]);
    assert("zip"@[0] != "wav"@[0]);
    assert("zip"@[0] != "ogg"@[0]);
    assert("zip"@[0] != "m4a"@[0]);
    assert("zip"@[0] != "mp4"@[0]);
    assert("zip"@[0] != "mkv"@[0]);
    assert("zip"@[0] != "mov"@[0]);
    assert("zip"@[0] != "avi"@[0]);
    lemma_lower_case_text("tar"@);
    assert("tar"@[0] != "mjs"@[0]);
    assert("tar"@[0] != "cjs"@[0]);
    assert("tar"@[0] != "jsx"@[0]);
    assert("tar"@[0] != "mts"@[0]);
    assert("tar"@[0] != "cts"@[0]);
    assert("tar"@[1] != "tsx"@[1]);
    assert("tar"@[0] != "pyw"@[0]);
    assert("tar"@[0] != "cpp"@[0]);
    assert("tar"@[0] != "cxx"@[0]);
    assert("tar"@[0] != "hpp"@[0]);
    assert("tar"@[0] != "hxx"@[0]);
    assert("tar"@[0] != "htm"@[0]);
    assert("tar"@[0] != "css"@[0]);
    assert("tar"@[0] != "yml"@[0]);
    assert("tar"@[0] != "mdx"@[0]);
    assert("tar"@[0] != "png"@[0]);
    assert("tar"@[0] != "jpg"@[0]);
    assert("tar"@[0] != "gif"@[0]);
    assert("tar"@[0] != "svg"@[0]);
    assert("tar"@[0] != "ico"@[0]);
    assert("tar"@[0] != "mp3"@[0]);
    assert("tar"@[0] != "wav"@[0]);
    assert("tar"@[0] != "ogg"@[0]);
    assert("tar"@[0] != "m4a"@[0]);
    assert("tar"@[0] != "mp4"@[0]);
    assert("tar"@[0] != "mkv"@[0]);
    assert("tar"@[0] != "mov"@[0]);
    assert("tar"@[0] != "avi"@[0]);
    lemma_lower_case_text("gz"@);
    assert("gz"@[0] != "rs"@[0]);
    assert("gz"@[0] != "js"@[0]);
    assert("gz"@[0] != "ts"@[0]);
    assert("gz"@[0] != "py"@[0]);
    assert("gz"@[1] != "go"@[1]);
    assert("gz"@[0] != "cc"@[0]);
    assert("gz"@[0] != "md"@[0]);
    lemma_lower_case_text("7z"@);
    assert("7z"@[0] != "rs"@[0]);
    assert("7z"@[0] != "js"@[0]);
    assert("7z"@[0] != "ts"@[0]);
    assert("7z"@[0] != "py"@[0]);
    assert("7z"@[0] != "go"@[0]);
    assert("7z"@[0] != "cc"@[0]);
    assert("7z"@[0] != "md"@[0]);
    lemma_lower_case_text("rar"@);
    assert("rar"@[0] != "mjs"@[0]);
    assert("rar"@[0] != "cjs"@[0]);
    assert("rar"@[0] != "jsx"@[0]);
    assert("rar"@[0] != "mts"@[0]);
    assert("rar"@[0] != "cts"@[0]);
    assert("rar"@[0] != "tsx"@[0]);
    assert("rar"@[0] != "pyw"@[0]);
    assert("rar"@[0] != "cpp"@[0]);
    assert("rar"@[0] != "cxx"@[0]);
    assert("rar"@[0] != "hpp"@[0]);
    assert("rar"@[0] != "hxx"@[0]);
    assert("rar"@[0] != "htm"@[0]);
    assert("rar"@[0] != "css"@[0]);
    assert("rar"@[0] != "yml"@[0]);
    assert("rar"@[0] != "mdx"@[0]);
    assert("rar"@[0] != "png"@[0]);
    assert("rar"@[0] != "jpg"@[0]);
    assert("rar"@[0] != "gif"@[0]);
    assert("rar"@[0] != "svg"@[0]);
    assert("rar"@[0] != "ico"@[0]);
    assert("rar"@[0] != "mp3"@[0]);
    assert("rar"@[0] != "wav"@[0]);
    assert("rar"@[0] != "ogg"@[0]);
    assert("rar"@[0] != "m4a"@[0]);
    assert("rar"@[0] != "mp4"@[0]);
    assert("rar"@[0] != "mkv"@[0]);
    assert("rar"@[0] != "mov"@[0]);
    assert("rar"@[0] != "avi"@[0]);
    lemma_lower_case_text("bz2"@);
    assert("bz2"@[0] != "mjs"@[0]);
    assert("bz2"@[0] != "cjs"@[0]);
    assert("bz2"@[0] != "jsx"@[0]);
    assert("bz2"@[0] != "mts"@[0]);
    assert("bz2"@[0] != "cts"@[0]);
    assert("bz2"@[0] != "tsx"@[0]);
    assert("bz2"@[0] != "pyw"@[0]);
    assert("bz2"@[0] != "cpp"@[0]);
    assert("bz2"@[0] != "cxx"@[0]);
    assert("bz2"@[0] != "hpp"@[0]);
    assert("bz2"@[0] != "hxx"@[0]);
    assert("bz2"@[0] != "htm"@[0]);
    assert("bz2"@[0] != "css"@[0]);
    assert("bz2"@[0] != "yml"@[0]);
    assert("bz2"@[0] != "mdx"@[0]);
    assert("bz2"@[0] != "png"@[0]);
    assert("bz2"@[0] != "jpg"@[0]);
    assert("bz2"@[0] != "gif"@[0]);
    assert("bz2"@[0] != "svg"@[0]);
    assert("bz2"@[0] != "ico"@[0]);
    assert("bz2"@[0] != "mp3"@[0]);
    assert("bz2"@[0] != "wav"@[0]);
    assert("bz2"@[0] != "ogg"@[0]);
    assert("bz2"@[0] != "m4a"@[0]);
    assert("bz2"@[0] != "mp4"@[0]);
    assert("bz2"@[0] != "mkv"@[0]);
    assert("bz2"@[0] != "mov"@[0]);
    assert("bz2"@[0] != "avi"@[0]);
    lemma_lower_case_text("xz"@);
    assert("xz"@[0] != "rs"@[0]);
    assert("xz"@[0] != "js"@[0]);
    assert("xz"@[0] != "ts"@[0]);
    assert("xz"@[0] != "py"@[0]);
    assert("xz"@[0] != "go"@[0]);
    assert("xz"@[0] != "cc"@[0]);
    assert("xz"@[0] != "md"@[0]);
}

/// Files with the extension `exe`, `bin`, `sh`, `bash`, `bat`, `cmd` are classed `Executable`.
pub proof fn lemma_executable_extensions()
    ensures
        category_spec(Some("exe"@), false) == FileCategory::Executable,
        category_spec(Some("bin"@), false) == FileCategory::Executable,
        category_spec(Some("sh"@), false) == FileCategory::Executable,
        category_spec(Some("bash"@), false) == FileCategory::Executable,
        category_spec(Some("bat"@), false) == FileCategory::Executable,
        category_spec(Some("cmd"@), false) == FileCategory::Executable,
{
    reveal_strlit("rs");
    reveal_strlit("js");
    reveal_strlit("mjs");
    reveal_strlit("cjs");
    reveal_strlit("jsx");
    reveal_strlit("ts");
    reveal_strlit("mts");
    reveal_strlit("cts");
    reveal_strlit("tsx");
    reveal_strlit("py");
    reveal_strlit("pyw");
    reveal_strlit("ipynb");
    reveal_strlit("go");
    reveal_strlit("c");
    reveal_strlit("h");
    reveal_strlit("cpp");
    reveal_strlit("cxx");
    reveal_strlit("cc");
    reveal_strlit("hpp");
    reveal_strlit("hxx");
    reveal_strlit("html");
    reveal_strlit("htm");
    reveal_strlit("css");
    reveal_strlit("scss");
    reveal_strlit("sass");
    reveal_strlit("less");
    reveal_strlit("json");
    reveal_strlit("toml");
    reveal_strlit("yaml");
    reveal_strlit("yml");
    reveal_strlit("md");
    reveal_strlit("markdown");
    reveal_strlit("mdx");
    reveal_strlit("png");
    reveal_strlit("jpg");
    reveal_strlit("jpeg");
    reveal_strlit("gif");
    reveal_strlit("svg");
    reveal_strlit("webp");
    reveal_strlit("ico");
    reveal_strlit("mp3");
    reveal_strlit("wav");
    reveal_strlit("ogg");
    reveal_strlit("flac");
    reveal_strlit("m4a");
    reveal_strlit("mp4");
    reveal_strlit("mkv");
    reveal_strlit("webm");
    reveal_strlit("mov");
    reveal_strlit("avi");
    reveal_strlit("zip");
    reveal_strlit("tar");
    reveal_strlit("gz");
    reveal_strlit("7z");
    reveal_strlit("rar");
    reveal_strlit("bz2");
    reveal_strlit("xz");
    reveal_strlit("exe");
    reveal_strlit("bin");
    reveal_strlit("sh");
    reveal_strlit("bash");
    reveal_strlit("bat");
    reveal_strlit("cmd");
    lemma_lower_case_text("exe"@);
    assert("exe"@[0] != "mjs"@[0]);
    assert("exe"@[0] != "cjs"@[0]);
    assert("exe"@[0] != "jsx"@[0]);
    assert("exe"@[0] != "mts"@[0]);
    assert("exe"@[0] != "cts"@[0]);
    assert("exe"@[0] != "tsx"@[0]);
    assert("exe"@[0] != "pyw"@[0]);
    assert("exe"@[0] != "cpp"@[0]);
    assert("exe"@[0] != "cxx"@[0]);
    assert("exe"@[0] != "hpp"@[0]);
    assert("exe"@[0] != "hxx"@[0]);
    assert("exe"@[0] != "htm"@[0]);
    assert("exe"@[0] != "css"@[0]);
    assert("exe"@[0] != "yml"@[0]);
    assert("exe"@[0] != "mdx"@[0]);
    assert("exe"@[0] != "png"@[0]);
    assert("exe"@[0] != "jpg"@[0]);
    assert("exe"@[0] != "gif"@[0]);
    assert("exe"@[0] != "svg"@[0]);
    assert("exe"@[0] != "ico"@[0]);
    assert("exe"@[0] != "mp3"@[0]);
    assert("exe"@[0] != "wav"@[0]);
    assert("exe"@[0] != "ogg"@[0]);
    assert("exe"@[0] != "m4a"@[0]);
    assert("exe"@[0] != "mp4"@[0]);
    assert("exe"@[0] != "mkv"@[0]);
    assert("exe"@[0] != "mov"@[0]);
    assert("exe"@[0] != "avi"@[0]);
    assert("exe"@[0] != "zip"@[0]);
    assert("exe"@[0] != "tar"@[0]);
    assert("exe"@[0] != "rar"@[0]);
    assert("exe"@[0] != "bz2"@[0]);
    lemma_lower_case_text("bin"@);
    assert("bin"@[0] != "mjs"@[0]);
    assert("bin"@[0] != "cjs"@[0]);
    assert("bin"@[0] != "jsx"@[0]);
    assert("bin"@[0] != "mts"@[0]);
    assert("bin"@[0] != "cts"@[0]);
    assert("bin"@[0] != "tsx"@[0]);
    assert("bin"@[0] != "pyw"@[0]);
    assert("bin"@[0] != "cpp"@[0]);
    assert("bin"@[0] != "cxx"@[0]);
    assert("bin"@[0] != "hpp"@[0]);
    assert("bin"@[0] != "hxx"@[0]);
    assert("bin"@[0] != "htm"@[0]);
    assert("bin"@[0] != "css"@[0]);
    assert("bin"@[0] != "yml"@[0]);
    assert("bin"@[0] != "mdx"@[0]);
    assert("bin"@[0] != "png"@[0]);
    assert("bin"@[0] != "jpg"@[0]);
    assert("bin"@[0] != "gif"@[0]);
    assert("bin"@[0] != "svg"@[0]);
    assert("bin"@[0] != "ico"@[0]);
    assert("bin"@[0] != "mp3"@[0]);
    assert("bin"@[0] != "wav"@[0]);
    assert("bin"@[0] != "ogg"@[0]);
    assert("bin"@[0] != "m4a"@[0]);
    assert("bin"@[0] != "mp4"@[0]);
    assert("bin"@[0] != "mkv"@[0]);
    assert("bin"@[0] != "mov"@[0]);
    assert("bin"@[0] != "avi"@[0]);
    assert("bin"@[0] != "zip"@[0]);
    assert("bin"@[0] != "tar"@[0]);
    assert("bin"@[0] != "rar"@[0]);
    assert("bin"@[1] != "bz2"@[1]);
    lemma_lower_case_text("sh"@);
    assert("sh"@[0] != "rs"@[0]);
    assert("sh"@[0] != "js"@[0]);
    assert("sh"@[0] != "ts"@[0]);
    assert("sh"@[0] != "py"@[0]);
    assert("sh"@[0] != "go"@[0]);
    assert("sh"@[0] != "cc"@[0]);
    assert("sh"@[0] != "md"@[0]);
    assert("sh"@[0] != "gz"@[0]);
    assert("sh"@[0] != "7z"@[0]);
    assert("sh"@[0] != "xz"@[0]);
    lemma_lower_case_text("bash"@);
    assert("bash"@[0] != "html"@[0]);
    assert("bash"@[0] != "scss"@[0]);
    assert("bash"@[0] != "sass"@[0]);
    assert("bash"@[0] != "less"@[0]);
    assert("bash"@[0] != "json"@[0]);
    assert("bash"@[0] != "toml"@[0]);
    assert("bash"@[0] != "yaml"@[0]);
    assert("bash"@[0] != "jpeg"@[0]);
    assert("bash"@[0] != "webp"@[0]);
    assert("bash"@[0] != "flac"@[0]);
    assert("bash"@[0] != "webm"@[0]);
    lemma_lower_case_text("bat"@);
    assert("bat"@[0] != "mjs"@[0]);
    assert("bat"@[0] != "cjs"@[0]);
    assert("bat"@[0] != "jsx"@[0]);
    assert("bat"@[0] != "mts"@[0]);
    assert("bat"@[0] != "cts"@[0]);
    assert("bat"@[0] != "tsx"@[0]);
    assert("bat"@[0] != "pyw"@[0]);
    assert("bat"@[0] != "cpp"@[0]);
    assert("bat"@[0] != "cxx"@[0]);
    assert("bat"@[0] != "hpp"@[0]);
    assert("bat"@[0] != "hxx"@[0]);
    assert("bat"@[0] != "htm"@[0]);
    assert("bat"@[0] != "css"@[0]);
    assert("bat"@[0] != "yml"@[0]);
    assert("bat"@[0] != "mdx"@[0]);
    assert("bat"@[0] != "png"@[0]);
    assert("bat"@[0] != "jpg"@[0]);
    assert("bat"@[0] != "gif"@[0]);
    assert("bat"@[0] != "svg"@[0]);
    assert("bat"@[0] != "ico"@[0]);
    assert("bat"@[0] != "mp3"@[0]);
    assert("bat"@[0] != "wav"@[0]);
    assert("bat"@[0] != "ogg"@[0]);
    assert("bat"@[0] != "m4a"@[0]);
    assert("bat"@[0] != "mp4"@[0]);
    assert("bat"@[0] != "mkv"@[0]);
    assert("bat"@[0] != "mov"@[0]);
    assert("bat"@[0] != "avi"@[0]);
    assert("bat"@[0] != "zip"@[0]);
    assert("bat"@[0] != "tar"@[0]);
    assert("bat"@[0] != "rar"@[0]);
    assert("bat"@[1] != "bz2"@[1]);
    lemma_lower_case_text("cmd"@);
    assert("cmd"@[0] != "mjs"@[0]);
    assert("cmd"@[1] != "cjs"@[1]);
    assert("cmd"@[0] != "jsx"@[0]);
    assert("cmd"@[0] != "mts"@[0]);
    assert("cmd"@[1] != "cts"@[1]);
    assert("cmd"@[0] != "tsx"@[0]);
    assert("cmd"@[0] != "pyw"@[0]);
    assert("cmd"@[1] != "cpp"@[1]);
    assert("cmd"@[1] != "cxx"@[1]);
    assert("cmd"@[0] != "hpp"@[0]);
    assert("cmd"@[0] != "hxx"@[0]);
    assert("cmd"@[0] != "htm"@[0]);
    assert("cmd"@[1] != "css"@[1]);
    assert("cmd"@[0] != "yml"@[0]);
    assert("cmd"@[0] != "mdx"@[0]);
    assert("cmd"@[0] != "png"@[0]);
    assert("cmd"@[0] != "jpg"@[0]);
    assert("cmd"@[0] != "gif"@[0]);
    assert("cmd"@[0] != "svg"@[0]);
    assert("cmd"@[0] != "ico"@[0]);
    assert("cmd"@[0] != "mp3"@[0]);
    assert("cmd"@[0] != "wav"@[0]);
    assert("cmd"@[0] != "ogg"@[0]);
    assert("cmd"@[0] != "m4a"@[0]);
    assert("cmd"@[0] != "mp4"@[0]);
    assert("cmd"@[0] != "mkv"@[0]);
    assert("cmd"@[0] != "mov"@[0]);
    assert("cmd"@[0] != "avi"@[0]);
    assert("cmd"@[0] != "zip"@[0]);
    assert("cmd"@[0] != "tar"@[0]);
    assert("cmd"@[0] != "rar"@[0]);
    assert("cmd"@[0] != "bz2"@[0]);
}

/// Files with the extension `pdf`, `doc`, `docx`, `txt`, `rtf` are classed `Document`.
pub proof fn lemma_document_extensions()
    ensures
        category_spec(Some("pdf"@), false) == FileCategory::Document,
        category_spec(Some("doc"@), false) == FileCategory::Document,
        category_spec(Some("docx"@), false) == FileCategory::Document,
        category_spec(Some("txt"@), false) == FileCategory::Document,
        category_spec(Some("rtf"@), false) == FileCategory::Document,
{
    reveal_strlit("rs");
    reveal_strlit("js");
    reveal_strlit("mjs");
    reveal_strlit("cjs");
    reveal_strlit("jsx");
    reveal_strlit("ts");
    reveal_strlit("mts");
    reveal_strlit("cts");
    reveal_strlit("tsx");
    reveal_strlit("py");
    reveal_strlit("pyw");
    reveal_strlit("ipynb");
    reveal_strlit("go");
    reveal_strlit("c");
    reveal_strlit("h");
    reveal_strlit("cpp");
    reveal_strlit("cxx");
    reveal_strlit("cc");
    reveal_strlit("hpp");
    reveal_strlit("hxx");
    reveal_strlit("html");
    reveal_strlit("htm");
    reveal_strlit("css");
    reveal_strlit("scss");
    reveal_strlit("sass");
    reveal_strlit("less");
    reveal_strlit("json");
    reveal_strlit("toml");
    reveal_strlit("yaml");
    reveal_strlit("yml");
    reveal_strlit("md");
    reveal_strlit("markdown");
    reveal_strlit("mdx");
    reveal_strlit("png");
    reveal_strlit("jpg");
    reveal_strlit("jpeg");
    reveal_strlit("gif");
    reveal_strlit("svg");
    reveal_strlit("webp");
    reveal_strlit("ico");
    reveal_strlit("mp3");
    reveal_strlit("wav");
    reveal_strlit("ogg");
    reveal_strlit("flac");
    reveal_strlit("m4a");
    reveal_strlit("mp4");
    reveal_strlit("mkv");
    reveal_strlit("webm");
    reveal_strlit("mov");
    reveal_strlit("avi");
    reveal_strlit("zip");
    reveal_strlit("tar");
    reveal_strlit("gz");
    reveal_strlit("7z");
    reveal_strlit("rar");
    reveal_strlit("bz2");
    reveal_strlit("xz");
    reveal_strlit("exe");
    reveal_strlit("bin");
    reveal_strlit("sh");
    reveal_strlit("bash");
    reveal_strlit("bat");
    reveal_strlit("cmd");
    reveal_strlit("pdf");
    reveal_strlit("doc");
    reveal_strlit("docx");
    reveal_strlit("txt");
    reveal_strlit("rtf");
    lemma_lower_case_text("pdf"@);
    assert("pdf"@[0] != "mjs"@[0]);
    assert("pdf"@[0] != "cjs"@[0]);
    assert("pdf"@[0] != "jsx"@[0]);
    assert("pdf"@[0] != "mts"@[0]);
    assert("pdf"@[0] != "cts"@[0]);
    assert("pdf"@[0] != "tsx"@[0]);
    assert("pdf"@[1] != "pyw"@[1]);
    assert("pdf"@[0] != "cpp"@[0]);
    assert("pdf"@[0] != "cxx"@[0]);
    assert("pdf"@[0] != "hpp"@[0]);
    assert("pdf"@[0] != "hxx"@[0]);
    assert("pdf"@[0] != "htm"@[0]);
    assert("pdf"@[0] != "css"@[0]);
    assert("pdf"@[0] != "yml"@[0]);
    assert("pdf"@[0] != "mdx"@[0]);
    assert("pdf"@[1] != "png"@[1]);
    assert("pdf"@[0] != "jpg"@[0]);
    assert("pdf"@[0] != "gif"@[0]);
    assert("pdf"@[0] != "svg"@[0]);
    assert("pdf"@[0] != "ico"@[0]);
    assert("pdf"@[0] != "mp3"@[0]);
    assert("pdf"@[0] != "wav"@[0]);
    assert("pdf"@[0] != "ogg"@[0]);
    assert("pdf"@[0] != "m4a"@[0]);
    assert("pdf"@[0] != "mp4"@[0]);
    assert("pdf"@[0] != "mkv"@[0]);
    assert("pdf"@[0] != "mov"@[0]);
    assert("pdf"@[0] != "avi"@[0]);
    assert("pdf"@[0] != "zip"@[0]);
    assert("pdf"@[0] != "tar"@[0]);
    assert("pdf"@[0] != "rar"@[0]);
    assert("pdf"@[0] != "bz2"@[0]);
    assert("pdf"@[0] != "exe"@[0]);
    assert("pdf"@[0] != "bin"@[0]);
    assert("pdf"@[0] != "bat"@[0]);
    assert("pdf"@[0] != "cmd"@[0]);
    lemma_lower_case_text("doc"@);
    assert("doc"@[0] != "mjs"@[0]);
    assert("doc"@[0] != "cjs"@[0]);
    assert("doc"@[0] != "jsx"@[0]);
    assert("doc"@[0] != "mts"@[0]);
    assert("doc"@[0] != "cts"@[0]);
    assert("doc"@[0] != "tsx"@[0]);
    assert("doc"@[0] != "pyw"@[0]);
    assert("doc"@[0] != "cpp"@[0]);
    assert("doc"@[0] != "cxx"@[0]);
    assert("doc"@[0] != "hpp"@[0]);
    assert("doc"@[0] != "hxx"@[0]);
    assert("doc"@[0] != "htm"@[0]);
    assert("doc"@[0] != "css"@[0]);
    assert("doc"@[0] != "yml"@[0]);
    assert("doc"@[0] != "mdx"@[0]);
    assert("doc"@[0] != "png"@[0]);
    assert("doc"@[0] != "jpg"@[0]);
    assert("doc"@[0] != "gif"@[0]);
    assert("doc"@[0] != "svg"@[0]);
    assert("doc"@[0] != "ico"@[0]);
    assert("doc"@[0] != "mp3"@[0]);
    assert("doc"@[0] != "wav"@[0]);
    assert("doc"@[0] != "ogg"@[0]);
    assert("doc"@[0] != "m4a"@[0]);
    assert("doc"@[0] != "mp4"@[0]);
    assert("doc"@[0] != "mkv"@[0]);
    assert("doc"@[0] != "mov"@[0]);
    assert("doc"@[0] != "avi"@[0]);
    assert("doc"@[0] != "zip"@[0]);
    assert("doc"@[0] != "tar"@[0]);
    assert("doc"@[0] != "rar"@[0]);
    assert("doc"@[0] != "bz2"@[0]);
    assert("doc"@[0] != "exe"@[0]);
    assert("doc"@[0] != "bin"@[0]);
    assert("doc"@[0] != "bat"@[0]);
    assert("doc"@[0] != "cmd"@[0]);
    lemma_lower_case_text("docx"@);
    assert("docx"@[0] != "html"@[0]);
    assert("docx"@[0] != "scss"@[0]);
    assert("docx"@[0] != "sass"@[0]);
    assert("docx"@[0] != "less"@[0]);
    assert("docx"@[0] != "json"@[0]);
    assert("docx"@[0] != "toml"@[0]);
    assert("docx"@[0] != "yaml"@[0]);
    assert("docx"@[0] != "jpeg"@[0]);
    assert("docx"@[0] != "webp"@[0]);
    assert("docx"@[0] != "flac"@[0]);
    assert("docx"@[0] != "webm"@[0]);
    assert("docx"@[0] != "bash"@[0]);
    lemma_lower_case_text("txt"@);
    assert("txt"@[0] != "mjs"@[0]);
    assert("txt"@[0] != "cjs"@[0]);
    assert("txt"@[0] != "jsx"@[0]);
    assert("txt"@[0] != "mts"@[0]);
    assert("txt"@[0] != "cts"@[0]);
    assert("txt"@[1] != "tsx"@[1]);
    assert("txt"@[0] != "pyw"@[0]);
    assert("txt"@[0] != "cpp"@[0]);
    assert("txt"@[0] != "cxx"@[0]);
    assert("txt"@[0] != "hpp"@[0]);
    assert("txt"@[0] != "hxx"@[0]);
    assert("txt"@[0] != "htm"@[0]);
    assert("txt"@[0] != "css"@[0]);
    assert("txt"@[0] != "yml"@[0]);
    assert("txt"@[0] != "mdx"@[0]);
    assert("txt"@[0] != "png"@[0]);
    assert("txt"@[0] != "jpg"@[0]);
    assert("txt"@[0] != "gif"@[0]);
    assert("txt"@[0] != "svg"@[0]);
    assert("txt"@[0] != "ico"@[0]);
    assert("txt"@[0] != "mp3"@[0]);
    assert("txt"@[0] != "wav"@[0]);
    assert("txt"@[0] != "ogg"@[0]);
    assert("txt"@[0] != "m4a"@[0]);
    assert("txt"@[0] != "mp4"@[0]);
    assert("txt"@[0] != "mkv"@[0]);
    assert("txt"@[0] != "mov"@[0]);
    assert("txt"@[0] != "avi"@[0]);
    assert("txt"@[0] != "zip"@[0]);
    assert("txt"@[1] != "tar"@[1]);
    assert("txt"@[0] != "rar"@[0]);
    assert("txt"@[0] != "bz2"@[0]);
    assert("txt"@[0] != "exe"@[0]);
    assert("txt"@[0] != "bin"@[0]);
    assert("txt"@[0] != "bat"@[0]);
    assert("txt"@[0] != "cmd"@[0]);
    lemma_lower_case_text("rtf"@);
    assert("rtf"@[0] != "mjs"@[0]);
    assert("rtf"@[0] != "cjs"@[0]);
    assert("rtf"@[0] != "jsx"@[0]);
    assert("rtf"@[0] != "mts"@[0]);
    assert("rtf"@[0] != "cts"@[0]);
    assert("rtf"@[0] != "tsx"@[0]);
    assert("rtf"@[0] != "pyw"@[0]);
    assert("rtf"@[0] != "cpp"@[0]);
    assert("rtf"@[0] != "cxx"@[0]);
    assert("rtf"@[0] != "hpp"@[0]);
    assert("rtf"@[0] != "hxx"@[0]);
    assert("rtf"@[0] != "htm"@[0]);
    assert("rtf"@[0] != "css"@[0]);
    assert("rtf"@[0] != "yml"@[0]);
    assert("rtf"@[0] != "mdx"@[0]);
    assert("rtf"@[0] != "png"@[0]);
    assert("rtf"@[0] != "jpg"@[0]);
    assert("rtf"@[0] != "gif"@[0]);
    assert("rtf"@[0] != "svg"@[0]);
    assert("rtf"@[0] != "ico"@[0]);
    assert("rtf"@[0] != "mp3"@[0]);
    assert("rtf"@[0] != "wav"@[0]);
    assert("rtf"@[0] != "ogg"@[0]);
    assert("rtf"@[0] != "m4a"@[0]);
    assert("rtf"@[0] != "mp4"@[0]);
    assert("rtf"@[0] != "mkv"@[0]);
    assert("rtf"@[0] != "mov"@[0]);
    assert("rtf"@[0] != "avi"@[0]);
    assert("rtf"@[0] != "zip"@[0]);
    assert("rtf"@[0] != "tar"@[0]);
    assert("rtf"@[1] != "rar"@[1]);
    assert("rtf"@[0] != "bz2"@[0]);
    assert("rtf"@[0] != "exe"@[0]);
    assert("rtf"@[0] != "bin"@[0]);
    assert("rtf"@[0] != "bat"@[0]);
    assert("rtf"@[0] != "cmd"@[0]);
}

/// The short label shown for a category.
pub open spec fn badge_text(c: FileCategory) -> Seq<char> {
    match c {
        FileCategory::Directory => "DIR"@,
        FileCategory::Rust => "RS"@,
        FileCategory::JavaScript => "JS"@,
        FileCategory::TypeScript => "TS"@,
        FileCategory::Python => "PY"@,
        FileCategory::Go => "GO"@,
        FileCategory::C => "C"@,
        FileCategory::Cpp => "C++"@,
        FileCategory::Html => "HTML"@,
        FileCategory::Css => "CSS"@,
        FileCategory::Json => "JSON"@,
        FileCategory::Toml => "TOML"@,
        FileCategory::Yaml => "YAML"@,
        FileCategory::Markdown => "MD"@,
        FileCategory::Image => "IMG"@,
        FileCategory::Audio => "AUD"@,
        FileCategory::Video => "VID"@,
        FileCategory::Archive => "ZIP"@,
        FileCategory::Executable => "EXE"@,
        FileCategory::Document => "DOC"@,
        FileCategory::Other => "FILE"@,
    }
}

fn lowered_category(e: &Vec<char>) -> (c: FileCategory)
    ensures
        c == extension_category(e@),
{
    if chars_equal(e, "rs") {
        FileCategory::Rust
    } else if chars_equal(e, "js") || chars_equal(e, "mjs") || chars_equal(e, "cjs")
        || chars_equal(e, "jsx") {
        FileCategory::JavaScript
    } else if chars_equal(e, "ts") || chars_equal(e, "mts") || chars_equal(e, "cts")
        || chars_equal(e, "tsx") {
        FileCategory::TypeScript
    } else if chars_equal(e, "py") || chars_equal(e, "pyw") || chars_equal(e, "ipynb") {
        FileCategory::Python
    } else if chars_equal(e, "go") {
        FileCategory::Go
    } else if chars_equal(e, "c") || chars_equal(e, "h") {
        FileCategory::C
    } else if chars_equal(e, "cpp") || chars_equal(e, "cxx") || chars_equal(e, "cc")
        || chars_equal(e, "hpp") || chars_equal(e, "hxx") {
        FileCategory::Cpp
    } else if chars_equal(e, "html") || chars_equal(e, "htm") {
        FileCategory::Html
    } else if chars_equal(e, "css") || chars_equal(e, "scss") || chars_equal(e, "sass")
        || chars_equal(e, "less") {
        FileCategory::Css
    } else if chars_equal(e, "json") {
        FileCategory::Json
    } else if chars_equal(e, "toml") {
        FileCategory::Toml
    } else if chars_equal(e, "yaml") || chars_equal(e, "yml") {
        FileCategory::Yaml
    } else if chars_equal(e, "md") || chars_equal(e, "markdown") || chars_equal(e, "mdx") {
        FileCategory::Markdown
    } else if chars_equal(e, "png") || chars_equal(e, "jpg") || chars_equal(e, "jpeg")
        || chars_equal(e, "gif") || chars_equal(e, "svg") || chars_equal(e, "webp")
        || chars_equal(e, "ico") {
        FileCategory::Image
    } else if chars_equal(e, "mp3") || chars_equal(e, "wav") || chars_equal(e, "ogg")
        || chars_equal(e, "flac") || chars_equal(e, "m4a") {
        FileCategory::Audio
    } else if chars_equal(e, "mp4") || chars_equal(e, "mkv") || chars_equal(e, "webm")
        || chars_equal(e, "mov") || chars_equal(e, "avi") {
        FileCategory::Video
    } else if chars_equal(e, "zip") || chars_equal(e, "tar") || chars_equal(e, "gz")
        || chars_equal(e, "7z") || chars_equal(e, "rar") || chars_equal(e, "bz2")
        || chars_equal(e, "xz") {
        FileCategory::Archive
    } else if chars_equal(e, "exe") || chars_equal(e, "bin") || chars_equal(e, "sh")
        || chars_equal(e, "bash") || chars_equal(e, "bat") || chars_equal(e, "cmd") {
        FileCategory::Executable
    } else if chars_equal(e, "pdf") || chars_equal(e, "doc") || chars_equal(e, "docx")
        || chars_equal(e, "txt") || chars_equal(e, "rtf") {
        FileCategory::Document
    } else {
        FileCategory::Other
    }
}

impl FileCategory {
    /// The category of an entry with the given extension (without its dot).
    pub fn from_extension(ext: Option<&str>, is_dir: bool) -> (c: Self)
        ensures
            c == category_spec(
                match ext {
                    Some(e) => Some(e@),
                    None => None,
                },
                is_dir,
            ),
    {
        if is_dir {
            return FileCategory::Directory;
        }
        match ext {
            Some(e) => {
                let lowered = ascii_lowercase_chars(e);
                lowered_category(&lowered)
            },
            None => FileCategory::Other,
        }
    }

    /// The short label shown for this category.
    pub fn display_badge(&self) -> (s: &'static str)
        ensures
            s@ == badge_text(*self),
    {
        match self {
            FileCategory::Directory => "DIR",
            FileCategory::Rust => "RS",
            FileCategory::JavaScript => "JS",
            FileCategory::TypeScript => "TS",
            FileCategory::Python => "PY",
            FileCategory::Go => "GO",
            FileCategory::C => "C",
            FileCategory::Cpp => "C++",
            FileCategory::Html => "HTML",
            FileCategory::Css => "CSS",
            FileCategory::Json => "JSON",
            FileCategory::Toml => "TOML",
            FileCategory::Yaml => "YAML",
            FileCategory::Markdown => "MD",
            FileCategory::Image => "IMG",
            FileCategory::Audio => "AUD",
            FileCategory::Video => "VID",
            FileCategory::Archive => "ZIP",
            FileCategory::Executable => "EXE",
            FileCategory::Document => "DOC",
            FileCategory::Other => "FILE",
        }
    }
}


/// One file or directory, with the children read so far.
#[derive(Debug)]
pub struct FsEntry {
    pub name: String,
    pub path: String,
    pub is_dir: bool,
    pub is_symlink: bool,
    pub size_bytes: u64,
    /// Last modification time, in nanoseconds relative to the Unix epoch
    /// (negative before it); `None` when the file system did not report one.
    pub modified: Option<i128>,
    pub extension: Option<String>,
    pub category: FileCategory,
    pub children: Vec<FsEntry>,
    pub is_loaded: bool,
    pub item_count: usize,
}

/// `b` is a copy of `a`: every field is the same, and each child is a copy
/// of the child in the same place.
pub open spec fn is_copy_of(b: FsEntry, a: FsEntry) -> bool
    decreases a,
{
    &&& b.name == a.name
    &&& b.path == a.path
    &&& b.is_dir == a.is_dir
    &&& b.is_symlink == a.is_symlink
    &&& b.size_bytes == a.size_bytes
    &&& b.modified == a.modified
    &&& b.extension == a.extension
    &&& b.category == a.category
    &&& b.children@.len() == a.children@.len()
    &&& forall|i: int|
        0 <= i < a.children@.len() ==> is_copy_of(b.children@[i], #[trigger] a.children@[i])
    &&& b.is_loaded == a.is_loaded
    &&& b.item_count == a.item_count
}

/// A copy of `e` and, in turn, of each of its children.
fn copy_entry(e: &FsEntry) -> (r: FsEntry)
    ensures
        is_copy_of(r, *e),
    decreases e,
{
    let mut children: Vec<FsEntry> = Vec::new();
    let mut i: usize = 0;
    while i < e.children.len()
        invariant
            i <= e.children@.len(),
            children@.len() == i,
            forall|j: int| 0 <= j < i ==> #[trigger] is_copy_of(children@[j], e.children@[j]),
        decreases e.children@.len() - i,
    {
        let child = copy_entry(&e.children[i]);
        children.push(child);
        i = i + 1;
    }
    let extension = match &e.extension {
        Some(x) => Some(x.clone()),
        None => None,
    };
    let r = FsEntry {
        name: e.name.clone(),
        path: e.path.clone(),
        is_dir: e.is_dir,
        is_symlink: e.is_symlink,
        size_bytes: e.size_bytes,
        modified: e.modified,
        extension,
        category: e.category,
        children,
        is_loaded: e.is_loaded,
        item_count: e.item_count,
    };
    proof {
        lemma_copy_from_parts(r, *e);
    }
    r
}

/// An entry whose own fields are those of `a` and whose children are copies
/// of the children of `a` is a copy of `a`.
proof fn lemma_copy_from_parts(b: FsEntry, a: FsEntry)
    requires
        b.name == a.name && b.path == a.path && b.is_dir == a.is_dir && b.is_symlink == a.is_symlink,
        b.size_bytes == a.size_bytes && b.modified == a.modified && b.extension == a.extension,
        b.category == a.category && b.is_loaded == a.is_loaded && b.item_count == a.item_count,
        b.children@.len() == a.children@.len(),
        forall|i: int| 0 <= i < a.children@.len() ==> #[trigger] is_copy_of(b.children@[i], a.children@[i]),
    ensures
        is_copy_of(b, a),
{
    reveal_with_fuel(is_copy_of, 2);
    assert forall|i: int|
        0 <= i < a.children@.len() implies is_copy_of(b.children@[i], #[trigger] a.children@[i]) by {
        assert(is_copy_of(b.children@[i], a.children@[i]));
    }
}

impl Clone for FsEntry {
    /// A copy of the entry and, in turn, of each of its children.
    fn clone(&self) -> (r: Self)
        ensures
            is_copy_of(r, *self),
    {
        copy_entry(self)
    }
}

/// The view of an optional string.
pub open spec fn opt_view(s: Option<String>) -> Option<Seq<char>> {
    match s {
        Some(t) => Some(t@),
        None => None,
    }
}

/// An optional timestamp as a mathematical integer.
pub open spec fn time_view(t: Option<i128>) -> Option<int> {
    match t {
        Some(x) => Some(x as int),
        None => None,
    }
}

/// A byte count for display: whole bytes below 1 KiB, then KiB and MiB with one
/// decimal place, GiB and TiB with two, each rounded as `{:.N}` rounds the
/// double-precision quotient.
pub open spec fn bytes_label(b: nat) -> Seq<char> {
    if b < 1024 {
        decimal(b) + " B"@
    } else if b < 1048576 {
        fixed_point(b, 1024, 1) + " KB"@
    } else if b < 1073741824 {
        fixed_point(b, 1048576, 1) + " MB"@
    } else if b < 1099511627776 {
        fixed_point(b, 1073741824, 2) + " GB"@
    } else {
        fixed_point(nearest_double(b), 1099511627776, 2) + " TB"@
    }
}

/// How long ago a modification at `modified` was, seen at time `now`
/// (both in nanoseconds relative to the Unix epoch), in whole units.
pub open spec fn age_label(modified: Option<int>, now: int) -> Seq<char> {
    match modified {
        None => "Unknown"@,
        Some(t) => if t <= now {
            let secs = ((now - t) / 1_000_000_000) as nat;
            if secs < 60 {
                "Just now"@
            } else if secs < 3600 {
                decimal(secs / 60) + "m ago"@
            } else if secs < 86400 {
                decimal(secs / 3600) + "h ago"@
            } else {
                decimal(secs / 86400) + "d ago"@
            }
        } else {
            "In the future"@
        },
    }
}

/// The size column of an entry: its item count for a directory, its byte size otherwise.
pub open spec fn size_label(is_dir: bool, item_count: nat, size_bytes: nat) -> Seq<char> {
    if is_dir {
        decimal(item_count) + " items"@
    } else {
        bytes_label(size_bytes)
    }
}

/// Formats a byte count for display.
pub fn format_bytes(bytes: u64) -> (s: String)
    ensures
        s@ == bytes_label(bytes as nat),
{
    let mut s = String::new();
    if bytes < 1024 {
        push_decimal(&mut s, bytes as u128);
        s.append(" B");
    } else if bytes < 1048576 {
        push_fixed_point(&mut s, bytes as u128, 1024, 1);
        s.append(" KB");
    } else if bytes < 1073741824 {
        push_fixed_point(&mut s, bytes as u128, 1048576, 1);
        s.append(" MB");
    } else if bytes < 1099511627776 {
        push_fixed_point(&mut s, bytes as u128, 1073741824, 2);
        s.append(" GB");
    } else {
        let rounded = nearest_double_exec(bytes);
        push_fixed_point(&mut s, rounded, 1099511627776, 2);
        s.append(" TB");
    }
    s
}

/// Formats how long ago `modified` was, seen at time `now` (both in
/// nanoseconds relative to the Unix epoch).
pub fn format_age(modified: Option<i128>, now: i128) -> (s: String)
    ensures
        s@ == age_label(time_view(modified), now as int),
{
    match modified {
        None => String::from_str("Unknown"),
        Some(t) => {
            if t <= now {
                let diff: u128 = if t >= 0 || now < 0 {
                    (now - t) as u128
                } else {
                    (now as u128) + ((-(t + 1)) as u128) + 1
                };
                let secs = diff / 1_000_000_000;
                if secs < 60 {
                    String::from_str("Just now")
                } else if secs < 3600 {
                    let mut s = decimal_string(secs / 60);
                    s.append("m ago");
                    s
                } else if secs < 86400 {
                    let mut s = decimal_string(secs / 3600);
                    s.append("h ago");
                    s
                } else {
                    let mut s = decimal_string(secs / 86400);
                    s.append("d ago");
                    s
                }
            } else {
                String::from_str("In the future")
            }
        },
    }
}

/// `std::time::SystemTime`, carried through unread.
#[verifier::external_type_specification]
#[verifier::external_body]
pub struct ExSystemTime(std::time::SystemTime);

/// `std::time::SystemTimeError`, carried through unread.
#[verifier::external_type_specification]
#[verifier::external_body]
pub struct ExSystemTimeError(std::time::SystemTimeError);

/// The largest number of nanoseconds a `Duration` holds, plus one: (2^64) * 10^9.
pub open spec fn duration_nanos_bound() -> nat {
    18_446_744_073_709_551_616_000_000_000
}

/// `SystemTime::now`: the current time; nothing is stated of it, it depends on the clock.
#[verifier::external_body]
fn system_time_now() -> std::time::SystemTime {
    std::time::SystemTime::now()
}

/// `SystemTime::duration_since(UNIX_EPOCH)`: how long after the Unix epoch `t`
/// is, or an error holding how long before it. Nothing is stated of the
/// outcome: `SystemTime` is opaque here.
#[verifier::external_body]
fn since_unix_epoch(t: &std::time::SystemTime) -> Result<
    std::time::Duration,
    std::time::SystemTimeError,
> {
    t.duration_since(std::time::UNIX_EPOCH)
}

/// `SystemTimeError::duration`: how far the later time lies beyond the earlier.
#[verifier::external_body]
fn error_duration(e: &std::time::SystemTimeError) -> std::time::Duration {
    e.duration()
}

/// `Duration::as_nanos`: the whole duration in nanoseconds. A `Duration` holds
/// at most `u64::MAX` seconds and fewer than 10^9 further nanoseconds, which
/// bounds the count; its value is not otherwise stated, `Duration` being opaque here.
#[verifier::external_body]
fn duration_nanos(d: &std::time::Duration) -> (n: u128)
    ensures
        n < duration_nanos_bound(),
{
    d.as_nanos()
}

/// The system clock, in nanoseconds relative to the Unix epoch (negative
/// before it). Which time it reads depends on the clock; every reading lies
/// strictly within what a `Duration` holds on either side of the epoch.
fn clock_nanos() -> (now: i128)
    ensures
        -(duration_nanos_bound() as int) < now < duration_nanos_bound(),
{
    let t = system_time_now();
    match since_unix_epoch(&t) {
        Ok(after) => duration_nanos(&after) as i128,
        Err(before) => {
            let d = error_duration(&before);
            -(duration_nanos(&d) as i128)
        },
    }
}

/// `a` and `b` describe the same file: everything but the children and the
/// loading bookkeeping agrees.
pub open spec fn same_file(a: FsEntry, b: FsEntry) -> bool {
    &&& a.name == b.name
    &&& a.path == b.path
    &&& a.is_dir == b.is_dir
    &&& a.is_symlink == b.is_symlink
    &&& a.size_bytes == b.size_bytes
    &&& a.modified == b.modified
    &&& a.extension == b.extension
    &&& a.category == b.category
}

/// The name starts with a dot: the entry is hidden.
pub open spec fn is_hidden_name(name: Seq<char>) -> bool {
    name.len() > 0 && name[0] == '.'
}

/// What to do with one child while reading a directory.
pub struct ChildLoad {
    /// Read the child's own children.
    pub load: bool,
    /// How many further levels to read below the child when it is not expanded.
    pub depth: usize,
}

/// Whether a child named `name` is listed: hidden names only when `show_hidden`.
pub fn is_listed(name: &str, show_hidden: bool) -> (b: bool)
    ensures
        b == (show_hidden || !is_hidden_name(name@)),
{
    if show_hidden {
        return true;
    }
    if name.unicode_len() == 0 {
        return true;
    }
    name.get_char(0) != '.'
}

/// How deep to read below a child: an expanded child is always read, at least
/// one level; any other child is read while the preview depth lasts, one level
/// less than its parent.
pub fn plan_child_load(child_is_dir: bool, is_child_expanded: bool, base_preview_depth: usize) -> (p:
    ChildLoad)
    ensures
        p.load == (child_is_dir && (is_child_expanded || base_preview_depth > 0)),
        p.depth == if is_child_expanded {
            if base_preview_depth >= 1 {
                base_preview_depth
            } else {
                1
            }
        } else if base_preview_depth > 0 {
            (base_preview_depth - 1) as usize
        } else {
            0
        },
{
    let depth = if is_child_expanded {
        if base_preview_depth >= 1 {
            base_preview_depth
        } else {
            1
        }
    } else if base_preview_depth > 0 {
        base_preview_depth - 1
    } else {
        0
    };
    ChildLoad { load: child_is_dir && (is_child_expanded || base_preview_depth > 0), depth }
}

impl FsEntry {
    /// Takes in the children just read: directories first, then by lower-cased
    /// name, entries of equal key in the order they were read; counts them and
    /// marks the entry loaded.
    pub fn install_children(&mut self, children: Vec<FsEntry>)
        ensures
            stable_sorted(final(self).children@, children@, table_key_fn(SortField::Name), false),
            final(self).item_count == children@.len(),
            final(self).is_loaded,
            same_file(*final(self), *old(self)),
    {
        let n = children.len();
        self.children = sort_entries(children, SortField::Name, SortOrder::Asc);
        self.item_count = n;
        self.is_loaded = true;
    }

    /// An entry not yet loaded, from what the file system reports of it: an
    /// extension is kept for files only, and the category follows from it.
    pub fn from_parts(
        name: String,
        path: String,
        is_dir: bool,
        is_symlink: bool,
        size_bytes: u64,
        modified: Option<i128>,
        extension: Option<String>,
    ) -> (e: FsEntry)
        ensures
            e.name == name,
            e.path == path,
            e.is_dir == is_dir,
            e.is_symlink == is_symlink,
            e.size_bytes == size_bytes,
            e.modified == modified,
            e.extension == (if is_dir { None } else { extension }),
            e.category == category_spec(opt_view(e.extension), is_dir),
            e.children@ == Seq::<FsEntry>::empty(),
            !e.is_loaded,
            e.item_count == 0,
    {
        let extension = if is_dir {
            None
        } else {
            extension
        };
        let category = match &extension {
            Some(x) => FileCategory::from_extension(Some(x.as_str()), is_dir),
            None => FileCategory::from_extension(None, is_dir),
        };
        FsEntry {
            name,
            path,
            is_dir,
            is_symlink,
            size_bytes,
            modified,
            extension,
            category,
            children: Vec::new(),
            is_loaded: false,
            item_count: 0,
        }
    }

    /// An entry not yet loaded for the path written `path`, from what the file
    /// system reports of it: named by its final component, with the extension
    /// of a file.
    pub fn from_metadata(
        path: String,
        is_dir: bool,
        is_symlink: bool,
        size_bytes: u64,
        modified: Option<i128>,
    ) -> (e: FsEntry)
        ensures
            e.name@ == display_name(path@),
            e.path == path,
            e.is_dir == is_dir,
            e.is_symlink == is_symlink,
            e.size_bytes == size_bytes,
            e.modified == modified,
            opt_view(e.extension) == if is_dir {
                None
            } else {
                extension_of(path@)
            },
            e.category == category_spec(opt_view(e.extension), is_dir),
            e.children@ == Seq::<FsEntry>::empty(),
            !e.is_loaded,
            e.item_count == 0,
    {
        let name = name_of_path(path.as_str());
        let extension = if is_dir {
            None
        } else {
            path_extension(path.as_str())
        };
        FsEntry::from_parts(name, path, is_dir, is_symlink, size_bytes, modified, extension)
    }

    /// The size column: `"<n> items"` for a directory, the byte size for a file.
    pub fn format_size(&self) -> (s: String)
        ensures
            s@ == size_label(self.is_dir, self.item_count as nat, self.size_bytes as nat),
    {
        if self.is_dir {
            let mut s = decimal_string(self.item_count as u128);
            s.append(" items");
            s
        } else {
            format_bytes(self.size_bytes)
        }
    }

    /// How long ago the entry was modified, read against the system clock.
    pub fn format_modified(&self) -> (s: String)
        ensures
            exists|now: int|
                -(duration_nanos_bound() as int) < now < duration_nanos_bound() && s@
                    == #[trigger] age_label(time_view(self.modified), now),
    {
        let now = clock_nanos();
        let s = format_age(self.modified, now);
        proof {
            assert(s@ == age_label(time_view(self.modified), now as int));
        }
        s
    }
}

} // verus!
