use vstd::prelude::*;

verus! {

/// The lower-case form of a string as `str::to_lowercase` gives it.
pub uninterp spec fn lowercase_of(s: Seq<char>) -> Seq<char>;

/// Relies on `str::to_lowercase`: the result depends on the characters alone.
#[verifier::external_body]
fn lowercase(s: &str) -> (r: String)
    ensures
        r@ == lowercase_of(s@),
{
    s.to_lowercase()
}

/// Whether two strings hold the same characters.
pub fn same_text(a: &str, b: &str) -> (r: bool)
    ensures
        r == (a@ == b@),
{
    let n = a.unicode_len();
    if n != b.unicode_len() {
        return false;
    }
    let mut i: usize = 0;
    while i < n
        invariant
            0 <= i <= n,
            n == a@.len(),
            n == b@.len(),
            forall|j: int| 0 <= j < i ==> a@[j] == b@[j],
        decreases n - i,
    {
        if a.get_char(i) != b.get_char(i) {
            return false;
        }
        i = i + 1;
    }
    assert(a@ =~= b@);
    true
}

/// The starter project files that `init` can write.
#[derive(Clone, Copy, PartialEq, Eq, Structural)]
pub enum TemplateKind {
    Generic,
    Rust,
    Node,
    Go,
    C,
    Cpp,
    Ruby,
    Php,
    Java,
    Kotlin,
    Swift,
    Zig,
    Elixir,
    Haskell,
    Css,
    Lua,
    Shell,
}

/// The project file for an unnamed or unknown language.
pub const GENERIC_TEMPLATE: &'static str = "# optional: runs automatically in zero-config mode\n# default = \"build\"\n\n[tasks.build]\nwatch = [\"src\"]\nrun = \"your command here\"\n";

/// The project file for rust.
pub const RUST_TEMPLATE: &'static str = "default = \"run\"\n[tasks.run]\nwatch = [\"src\"]\nextensions = [\"rs\"]\nrun = \"cargo run\"\n[tasks.test]\nwatch = [\"src\", \"tests\"]\nextensions = [\"rs\"]\nrun = \"cargo test\"\n[tasks.build]\nwatch = [\"src\"]\nextensions = [\"rs\"]\nrun = \"cargo build --release\"\n[tasks.check]\nwatch = [\"src\"]\nextensions = [\"rs\"]\nrun = \"cargo check\"\n[tasks.lint]\nwatch = [\"src\"]\nextensions = [\"rs\"]\nrun = \"cargo clippy\"";

/// The project file for node / nodejs.
pub const NODE_TEMPLATE: &'static str = "default = \"dev\"\n[tasks.dev]\nwatch = [\"src\"]\nextensions = [\"js\", \"ts\"]\nrun = \"node index.js\"\n[tasks.test]\nwatch = [\"src\", \"tests\"]\nextensions = [\"js\", \"ts\"]\nrun = \"npm test\"\n[tasks.build]\nwatch = [\"src\"]\nextensions = [\"ts\"]\nrun = \"tsc\"\n[tasks.lint]\nwatch = [\"src\"]\nextensions = [\"js\", \"ts\"]\nrun = \"eslint src\"\n[tasks.format]\nwatch = [\"src\"]\nextensions = [\"js\", \"ts\"]\nrun = \"prettier --write src\"";

/// The project file for go.
pub const GO_TEMPLATE: &'static str = "default = \"run\"\n[tasks.run]\nwatch = [\".\"]\nextensions = [\"go\"]\nrun = \"go run .\"\n[tasks.test]\nwatch = [\".\"]\nextensions = [\"go\"]\nrun = \"go test ./...\"\n[tasks.build]\nwatch = [\".\"]\nextensions = [\"go\"]\nrun = \"go build -o app .\"\n[tasks.lint]\nwatch = [\".\"]\nextensions = [\"go\"]\nrun = \"golangci-lint run\"\n[tasks.fmt]\nwatch = [\".\"]\nextensions = [\"go\"]\nrun = \"gofmt -w .\"";

/// The project file for c.
pub const C_TEMPLATE: &'static str = "default = \"build\"\n[tasks.build]\nwatch = [\"src\", \"include\"]\nextensions = [\"c\", \"h\"]\nrun = \"gcc src/*.c -Iinclude -o app\"\n[tasks.run]\nwatch = [\"src\", \"include\"]\nextensions = [\"c\", \"h\"]\nrun = \"make && ./app\"\n[tasks.clean]\nwatch = [\"src\"]\nextensions = [\"c\", \"h\"]\nrun = \"make clean\"";

/// The project file for cpp.
pub const CPP_TEMPLATE: &'static str = "default = \"build\"\n[tasks.build]\nwatch = [\"src\", \"include\"]\nextensions = [\"cpp\", \"hpp\", \"h\"]\nrun = \"g++ src/*.cpp -Iinclude -o app\"\n[tasks.run]\nwatch = [\"src\", \"include\"]\nextensions = [\"cpp\", \"hpp\", \"h\"]\nrun = \"make && ./app\"\n[tasks.test]\nwatch = [\"src\", \"tests\"]\nextensions = [\"cpp\", \"hpp\"]\nrun = \"ctest --output-on-failure\"";

/// The project file for ruby.
pub const RUBY_TEMPLATE: &'static str = "default = \"run\"\n[tasks.run]\nwatch = [\".\"]\nextensions = [\"rb\"]\nrun = \"ruby main.rb\"\n[tasks.test]\nwatch = [\".\"]\nextensions = [\"rb\"]\nrun = \"bundle exec rspec\"\n[tasks.lint]\nwatch = [\".\"]\nextensions = [\"rb\"]\nrun = \"rubocop\"";

/// The project file for php.
pub const PHP_TEMPLATE: &'static str = "default = \"run\"\n[tasks.run]\nwatch = [\".\"]\nextensions = [\"php\"]\nrun = \"php index.php\"\n[tasks.test]\nwatch = [\".\"]\nextensions = [\"php\"]\nrun = \"phpunit\"\n[tasks.lint]\nwatch = [\".\"]\nextensions = [\"php\"]\nrun = \"php -l index.php\"";

/// The project file for java.
pub const JAVA_TEMPLATE: &'static str = "default = \"build\"\n[tasks.build]\nwatch = [\"src\"]\nextensions = [\"java\"]\nrun = \"javac src/*.java -d out\"\n[tasks.run]\nwatch = [\"src\"]\nextensions = [\"java\"]\nrun = \"java -cp out Main\"\n[tasks.test]\nwatch = [\"src\", \"test\"]\nextensions = [\"java\"]\nrun = \"mvn test\"";

/// The project file for kotlin.
pub const KOTLIN_TEMPLATE: &'static str = "default = \"run\"\n[tasks.run]\nwatch = [\"src\"]\nextensions = [\"kt\"]\nrun = \"kotlinc src/*.kt -include-runtime -d app.jar && java -jar app.jar\"\n[tasks.test]\nwatch = [\"src\", \"test\"]\nextensions = [\"kt\"]\nrun = \"gradle test\"";

/// The project file for swift.
pub const SWIFT_TEMPLATE: &'static str = "default = \"run\"\n[tasks.run]\nwatch = [\"Sources\"]\nextensions = [\"swift\"]\nrun = \"swift run\"\n[tasks.test]\nwatch = [\"Sources\", \"Tests\"]\nextensions = [\"swift\"]\nrun = \"swift test\"\n[tasks.build]\nwatch = [\"Sources\"]\nextensions = [\"swift\"]\nrun = \"swift build\"";

/// The project file for zig.
pub const ZIG_TEMPLATE: &'static str = "default = \"run\"\n[tasks.run]\nwatch = [\"src\"]\nextensions = [\"zig\"]\nrun = \"zig run src/main.zig\"\n[tasks.test]\nwatch = [\"src\"]\nextensions = [\"zig\"]\nrun = \"zig test src/main.zig\"\n[tasks.build]\nwatch = [\"src\"]\nextensions = [\"zig\"]\nrun = \"zig build\"";

/// The project file for elixir.
pub const ELIXIR_TEMPLATE: &'static str = "default = \"run\"\n[tasks.run]\nwatch = [\"lib\"]\nextensions = [\"ex\", \"exs\"]\nrun = \"mix run\"\n[tasks.test]\nwatch = [\"lib\", \"test\"]\nextensions = [\"ex\", \"exs\"]\nrun = \"mix test\"\n[tasks.compile]\nwatch = [\"lib\"]\nextensions = [\"ex\"]\nrun = \"mix compile\"";

/// The project file for haskell.
pub const HASKELL_TEMPLATE: &'static str = "default = \"run\"\n[tasks.run]\nwatch = [\"src\"]\nextensions = [\"hs\"]\nrun = \"cabal run\"\n[tasks.test]\nwatch = [\"src\", \"test\"]\nextensions = [\"hs\"]\nrun = \"cabal test\"\n[tasks.build]\nwatch = [\"src\"]\nextensions = [\"hs\"]\nrun = \"cabal build\"";

/// The project file for css / scss.
pub const CSS_TEMPLATE: &'static str = "default = \"build\"\n[tasks.build]\nwatch = [\"src\"]\nextensions = [\"scss\", \"sass\"]\nrun = \"sass src/main.scss dist/style.css\"\n[tasks.watch]\nwatch = [\"src\"]\nextensions = [\"css\", \"scss\"]\nrun = \"sass --watch src:dist\"";

/// The project file for lua.
pub const LUA_TEMPLATE: &'static str = "default = \"run\"\n[tasks.run]\nwatch = [\".\"]\nextensions = [\"lua\"]\nrun = \"lua main.lua\"\n[tasks.test]\nwatch = [\".\"]\nextensions = [\"lua\"]\nrun = \"busted\"";

/// The project file for shell / sh.
pub const SHELL_TEMPLATE: &'static str = "default = \"run\"\n[tasks.run]\nwatch = [\".\"]\nextensions = [\"sh\"]\nrun = \"bash main.sh\"\n[tasks.lint]\nwatch = [\".\"]\nextensions = [\"sh\"]\nrun = \"shellcheck *.sh\"";

/// The template that a lower-case language name selects.
pub open spec fn kind_of_name(name: Seq<char>) -> TemplateKind {
    if name == "rust"@ {
        TemplateKind::Rust
    } else if name == "node"@ || name == "nodejs"@ {
        TemplateKind::Node
    } else if name == "go"@ {
        TemplateKind::Go
    } else if name == "c"@ {
        TemplateKind::C
    } else if name == "cpp"@ {
        TemplateKind::Cpp
    } else if name == "ruby"@ {
        TemplateKind::Ruby
    } else if name == "php"@ {
        TemplateKind::Php
    } else if name == "java"@ {
        TemplateKind::Java
    } else if name == "kotlin"@ {
        TemplateKind::Kotlin
    } else if name == "swift"@ {
        TemplateKind::Swift
    } else if name == "zig"@ {
        TemplateKind::Zig
    } else if name == "elixir"@ {
        TemplateKind::Elixir
    } else if name == "haskell"@ {
        TemplateKind::Haskell
    } else if name == "css"@ || name == "scss"@ {
        TemplateKind::Css
    } else if name == "lua"@ {
        TemplateKind::Lua
    } else if name == "shell"@ || name == "sh"@ {
        TemplateKind::Shell
    } else {
        TemplateKind::Generic
    }
}

/// Selects the template for a lower-case language name; an unknown name
/// selects the generic one.
pub fn template_kind(name: &str) -> (r: TemplateKind)
    ensures
        r == kind_of_name(name@),
{
    if same_text(name, "rust") {
        TemplateKind::Rust
    } else if same_text(name, "node") || same_text(name, "nodejs") {
        TemplateKind::Node
    } else if same_text(name, "go") {
        TemplateKind::Go
    } else if same_text(name, "c") {
        TemplateKind::C
    } else if same_text(name, "cpp") {
        TemplateKind::Cpp
    } else if same_text(name, "ruby") {
        TemplateKind::Ruby
    } else if same_text(name, "php") {
        TemplateKind::Php
    } else if same_text(name, "java") {
        TemplateKind::Java
    } else if same_text(name, "kotlin") {
        TemplateKind::Kotlin
    } else if same_text(name, "swift") {
        TemplateKind::Swift
    } else if same_text(name, "zig") {
        TemplateKind::Zig
    } else if same_text(name, "elixir") {
        TemplateKind::Elixir
    } else if same_text(name, "haskell") {
        TemplateKind::Haskell
    } else if same_text(name, "css") || same_text(name, "scss") {
        TemplateKind::Css
    } else if same_text(name, "lua") {
        TemplateKind::Lua
    } else if same_text(name, "shell") || same_text(name, "sh") {
        TemplateKind::Shell
    } else {
        TemplateKind::Generic
    }
}

/// The text of a template.
pub open spec fn template_spec(kind: TemplateKind) -> Seq<char> {
    match kind {
        TemplateKind::Generic => GENERIC_TEMPLATE@,
        TemplateKind::Rust => RUST_TEMPLATE@,
        TemplateKind::Node => NODE_TEMPLATE@,
        TemplateKind::Go => GO_TEMPLATE@,
        TemplateKind::C => C_TEMPLATE@,
        TemplateKind::Cpp => CPP_TEMPLATE@,
        TemplateKind::Ruby => RUBY_TEMPLATE@,
        TemplateKind::Php => PHP_TEMPLATE@,
        TemplateKind::Java => JAVA_TEMPLATE@,
        TemplateKind::Kotlin => KOTLIN_TEMPLATE@,
        TemplateKind::Swift => SWIFT_TEMPLATE@,
        TemplateKind::Zig => ZIG_TEMPLATE@,
        TemplateKind::Elixir => ELIXIR_TEMPLATE@,
        TemplateKind::Haskell => HASKELL_TEMPLATE@,
        TemplateKind::Css => CSS_TEMPLATE@,
        TemplateKind::Lua => LUA_TEMPLATE@,
        TemplateKind::Shell => SHELL_TEMPLATE@,
    }
}

/// The text of a template.
pub fn template_text(kind: TemplateKind) -> (r: &'static str)
    ensures
        r@ == template_spec(kind),
{
    match kind {
        TemplateKind::Generic => GENERIC_TEMPLATE,
        TemplateKind::Rust => RUST_TEMPLATE,
        TemplateKind::Node => NODE_TEMPLATE,
        TemplateKind::Go => GO_TEMPLATE,
        TemplateKind::C => C_TEMPLATE,
        TemplateKind::Cpp => CPP_TEMPLATE,
        TemplateKind::Ruby => RUBY_TEMPLATE,
        TemplateKind::Php => PHP_TEMPLATE,
        TemplateKind::Java => JAVA_TEMPLATE,
        TemplateKind::Kotlin => KOTLIN_TEMPLATE,
        TemplateKind::Swift => SWIFT_TEMPLATE,
        TemplateKind::Zig => ZIG_TEMPLATE,
        TemplateKind::Elixir => ELIXIR_TEMPLATE,
        TemplateKind::Haskell => HASKELL_TEMPLATE,
        TemplateKind::Css => CSS_TEMPLATE,
        TemplateKind::Lua => LUA_TEMPLATE,
        TemplateKind::Shell => SHELL_TEMPLATE,
    }
}

/// The template for `init`: the generic one where no language is named,
/// else the one that the lower-case form of the name selects.
pub fn init_template(language: &Option<String>) -> (r: &'static str)
    ensures
        r@ == template_spec(
            match language {
                Some(l) => kind_of_name(lowercase_of(l@)),
                None => TemplateKind::Generic,
            },
        ),
{
    match language {
        None => template_text(TemplateKind::Generic),
        Some(l) => {
            let lowered = lowercase(l.as_str());
            template_text(template_kind(lowered.as_str()))
        },
    }
}

} // verus!
