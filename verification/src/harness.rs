//! The texts of the programs that check generated bindings end to end: the
//! Rust program that exercises the exported functions, and for Dart the
//! library, the Dart program and the runner that builds and starts them.

use vstd::prelude::*;

verus! {

/// The escaped form of one character inside a Rust string literal.
pub open spec fn rust_escape_char(c: char) -> Seq<char> {
    if c == '\\' {
        "\\\\"@
    } else if c == '"' {
        "\\\""@
    } else if c == '\n' {
        "\\n"@
    } else if c == '\r' {
        "\\r"@
    } else if c == '\t' {
        "\\t"@
    } else {
        seq![c]
    }
}

/// The escaped form of a text inside a Rust string literal.
pub open spec fn rust_escape(s: Seq<char>) -> Seq<char>
    decreases s.len(),
{
    if s.len() == 0 {
        Seq::empty()
    } else {
        rust_escape(s.drop_last()) + rust_escape_char(s.last())
    }
}

/// A Rust string literal whose value is `s`.
pub open spec fn rust_quoted_spec(s: Seq<char>) -> Seq<char> {
    "\""@ + rust_escape(s) + "\""@
}

/// A Rust string literal whose value is `s`.
pub fn rust_quoted(s: &str) -> (r: String)
    ensures
        r@ == rust_quoted_spec(s@),
{
    let n = s.unicode_len();
    let mut buf = String::from_str("\"");
    let mut i: usize = 0;
    while i < n
        invariant
            n == s@.len(),
            i <= n,
            buf@ == "\""@ + rust_escape(s@.take(i as int)),
        decreases n - i,
    {
        assert(s@.take(i + 1).drop_last() =~= s@.take(i as int));
        let c = s.get_char(i);
        if c == '\\' {
            buf.append("\\\\");
        } else if c == '"' {
            buf.append("\\\"");
        } else if c == '\n' {
            buf.append("\\n");
        } else if c == '\r' {
            buf.append("\\r");
        } else if c == '\t' {
            buf.append("\\t");
        } else {
            let one = s.substring_char(i, i + 1);
            assert(one@ =~= seq![c]);
            buf.append(one);
        }
        i = i + 1;
    }
    assert(s@.take(n as int) =~= s@);
    buf.append("\"");
    buf
}

/// The program that checks the Rust side: the feature gates it needs, the
/// generated module, the library code `api`, and a `main` that runs `test`
/// with the module in scope.
pub open spec fn rust_test_program_spec(generated: Seq<char>, api: Seq<char>, test: Seq<char>) -> Seq<char> {
    "#![feature(vec_into_raw_parts)]\n#![feature(once_cell)]\n"@ + generated + api + "fn main() {\nuse api::*;\n"@
        + test + "}\n"@
}

/// The program that checks the Rust side.
pub fn rust_test_program(generated: &str, api: &str, test: &str) -> (r: String)
    ensures
        r@ == rust_test_program_spec(generated@, api@, test@),
{
    let mut buf = String::from_str("#![feature(vec_into_raw_parts)]\n#![feature(once_cell)]\n");
    buf.append(generated);
    buf.append(api);
    buf.append("fn main() {\nuse api::*;\n");
    buf.append(test);
    buf.append("}\n");
    buf
}

/// The native library of a Dart check: the generated Rust module followed by
/// the library code.
pub open spec fn dart_test_library_spec(generated: Seq<char>, rust: Seq<char>) -> Seq<char> {
    generated + rust
}

/// The native library of a Dart check.
pub fn dart_test_library(generated: &str, rust: &str) -> (r: String)
    ensures
        r@ == dart_test_library_spec(generated@, rust@),
{
    let mut buf = String::from_str(generated);
    buf.append(rust);
    buf
}

/// A helper for comparing lists element by element, available to Dart checks.
pub const DART_LIST_EQUALS: &'static str = r#"extension on List {
    bool equals(List list) {
        if (this.length != list.length) return false;
        for (int i = 0; i < this.length; i++) {
            if (this[i] != list[i]) {
                return false;
            }
        }
        return true;
    }
}

"#;

/// The Dart program of a check: the generated Dart code, the list helper,
/// and a `main` that loads the library and runs `test`.
pub open spec fn dart_test_program_spec(generated: Seq<char>, test: Seq<char>) -> Seq<char> {
    generated + DART_LIST_EQUALS@ + "void main() {\nfinal api = Api.load();\n"@ + test + "}\n"@
}

/// The Dart program of a check.
pub fn dart_test_program(generated: &str, test: &str) -> (r: String)
    ensures
        r@ == dart_test_program_spec(generated@, test@),
{
    let mut buf = String::from_str(generated);
    buf.append(DART_LIST_EQUALS);
    buf.append("void main() {\nfinal api = Api.load();\n");
    buf.append(test);
    buf.append("}\n");
    buf
}

/// The runner of a Dart check: it compiles `rust_file` into the shared
/// library `library_file`, then runs `dart_file` with `library_dir` on the
/// library path, and fails when either step fails.
pub open spec fn dart_runner_program_spec(
    library_file: Seq<char>,
    rust_file: Seq<char>,
    library_dir: Seq<char>,
    dart_file: Seq<char>,
) -> Seq<char> {
    "fn main() {\nuse std::process::Command;\nlet ret = Command::new(\"rustc\")\n.arg(\"--crate-name\")\n.arg(\"compile_pass\")\n.arg(\"--crate-type\")\n.arg(\"cdylib\")\n.arg(\"-o\")\n.arg("@
        + rust_quoted_spec(library_file) + ")\n.arg("@ + rust_quoted_spec(rust_file)
        + ")\n.status()\n.unwrap()\n.success();\nassert!(ret);\nlet ret = Command::new(\"dart\")\n.env(\"LD_LIBRARY_PATH\", "@
        + rust_quoted_spec(library_dir) + ")\n.arg(\"--enable-asserts\")\n.arg("@ + rust_quoted_spec(dart_file)
        + ")\n.status()\n.unwrap()\n.success();\nassert!(ret);\n}\n"@
}

/// The runner of a Dart check.
pub fn dart_runner_program(library_file: &str, rust_file: &str, library_dir: &str, dart_file: &str) -> (r: String)
    ensures
        r@ == dart_runner_program_spec(library_file@, rust_file@, library_dir@, dart_file@),
{
    let mut buf = String::from_str(
        "fn main() {\nuse std::process::Command;\nlet ret = Command::new(\"rustc\")\n.arg(\"--crate-name\")\n.arg(\"compile_pass\")\n.arg(\"--crate-type\")\n.arg(\"cdylib\")\n.arg(\"-o\")\n.arg(",
    );
    buf.append(rust_quoted(library_file).as_str());
    buf.append(")\n.arg(");
    buf.append(rust_quoted(rust_file).as_str());
    buf.append(
        ")\n.status()\n.unwrap()\n.success();\nassert!(ret);\nlet ret = Command::new(\"dart\")\n.env(\"LD_LIBRARY_PATH\", ",
    );
    buf.append(rust_quoted(library_dir).as_str());
    buf.append(")\n.arg(\"--enable-asserts\")\n.arg(");
    buf.append(rust_quoted(dart_file).as_str());
    buf.append(")\n.status()\n.unwrap()\n.success();\nassert!(ret);\n}\n");
    buf
}

} // verus!
