//! Requests to scaffold and to delete projects, and what they come to.

use vstd::prelude::*;
use vstd::string::*;
use crate::command::{CommandLine, CommandLineView};
use crate::text::{chars_of, contains_chars, contains_seq, text_eq};

verus! {

/// A request to scaffold a project.
pub struct CreateProjectRequest {
    pub name: String,
    pub description: Option<String>,
    pub framework: String,
}

/// A request to delete a project.
pub struct DeleteProjectRequest {
    pub id: String,
}

/// The command that scaffolds a project called `name` with the given
/// framework, or `None` for a framework that is not supported.
pub open spec fn scaffold_command_of(framework: Seq<char>, name: Seq<char>) -> Option<
    CommandLineView,
> {
    if framework == "Anchor"@ {
        Some(CommandLineView { program: "anchor"@, args: seq!["init"@, name] })
    } else if framework == "Native"@ || framework == "Rust"@ {
        Some(CommandLineView { program: "cargo"@, args: seq!["new"@, name, "--bin"@] })
    } else if framework == "NextJS"@ {
        Some(
            CommandLineView {
                program: "npx"@,
                args: seq![
                    "create-next-app@latest"@,
                    name,
                    "--typescript"@,
                    "--tailwind"@,
                    "--eslint"@,
                    "--no-src-dir"@,
                    "--import-alias"@,
                    "@/*"@,
                    "--use-npm"@,
                    "--yes"@,
                ],
            },
        )
    } else if framework == "React"@ {
        Some(
            CommandLineView {
                program: "npm"@,
                args: seq![
                    "create"@,
                    "vite@latest"@,
                    name,
                    "--"@,
                    "--template"@,
                    "react-ts"@,
                ],
            },
        )
    } else if framework == "Tauri"@ {
        Some(
            CommandLineView {
                program: "npm"@,
                args: seq![
                    "create"@,
                    "tauri-app@latest"@,
                    name,
                    "--"@,
                    "--template"@,
                    "react-ts"@,
                    "--manager"@,
                    "npm"@,
                    "--yes"@,
                ],
            },
        )
    } else {
        None
    }
}

/// The frameworks whose projects get their dependencies installed after
/// scaffolding.
pub open spec fn installs_dependencies_of(framework: Seq<char>) -> bool {
    framework == "Anchor"@ || framework == "React"@ || framework == "Tauri"@
}

/// A project id that names a directory entry and nothing else: it holds
/// no `..`, no `/` and no `\`.
pub open spec fn is_plain_id(id: Seq<char>) -> bool {
    !contains_seq(id, ".."@) && !contains_seq(id, "/"@) && !contains_seq(id, "\\"@)
}

/// The directory of a user under the storage root.
pub open spec fn user_root_of(base: Seq<char>, wallet: Seq<char>) -> Seq<char> {
    base + "/"@ + wallet
}

/// Builds a command line from a program and its arguments.
fn command_line(program: &str, args: Vec<&str>) -> (line: CommandLine)
    ensures
        line@.program == program@,
        line@.args == args.deep_view(),
{
    let mut owned: Vec<String> = Vec::new();
    let mut i: usize = 0;
    while i < args.len()
        invariant
            i <= args.len(),
            owned.len() == i,
            forall|k: int| 0 <= k < i ==> owned.deep_view()[k] == args.deep_view()[k],
        decreases args.len() - i,
    {
        let ghost before = owned.deep_view();
        owned.push(String::from_str(args[i]));
        assert forall|k: int| 0 <= k < i + 1 implies owned.deep_view()[k] == args.deep_view()[k] by {
            if k < i {
                assert(owned.deep_view()[k] == before[k]);
            }
        }
        i += 1;
    }
    assert(owned.deep_view() =~= args.deep_view());
    CommandLine { program: String::from_str(program), args: owned }
}

impl CreateProjectRequest {
    /// The command that scaffolds the project, or `None` where the
    /// framework is not supported.
    pub fn scaffold_command(&self) -> (command: Option<CommandLine>)
        ensures
            command.deep_view() == scaffold_command_of(self.framework@, self.name@),
    {
        let framework = self.framework.as_str();
        let name = self.name.as_str();
        if text_eq(framework, "Anchor") {
            let line = command_line("anchor", vec!["init", name]);
            assert(line@.args =~= seq!["init"@, name@]);
            Some(line)
        } else if text_eq(framework, "Native") || text_eq(framework, "Rust") {
            let line = command_line("cargo", vec!["new", name, "--bin"]);
            assert(line@.args =~= seq!["new"@, name@, "--bin"@]);
            Some(line)
        } else if text_eq(framework, "NextJS") {
            let line = command_line(
                "npx",
                vec![
                    "create-next-app@latest",
                    name,
                    "--typescript",
                    "--tailwind",
                    "--eslint",
                    "--no-src-dir",
                    "--import-alias",
                    "@/*",
                    "--use-npm",
                    "--yes",
                ],
            );
            assert(line@.args =~= seq![
                "create-next-app@latest"@,
                name@,
                "--typescript"@,
                "--tailwind"@,
                "--eslint"@,
                "--no-src-dir"@,
                "--import-alias"@,
                "@/*"@,
                "--use-npm"@,
                "--yes"@,
            ]);
            Some(line)
        } else if text_eq(framework, "React") {
            let line = command_line(
                "npm",
                vec!["create", "vite@latest", name, "--", "--template", "react-ts"],
            );
            assert(line@.args =~= seq![
                "create"@,
                "vite@latest"@,
                name@,
                "--"@,
                "--template"@,
                "react-ts"@,
            ]);
            Some(line)
        } else if text_eq(framework, "Tauri") {
            let line = command_line(
                "npm",
                vec![
                    "create",
                    "tauri-app@latest",
                    name,
                    "--",
                    "--template",
                    "react-ts",
                    "--manager",
                    "npm",
                    "--yes",
                ],
            );
            assert(line@.args =~= seq![
                "create"@,
                "tauri-app@latest"@,
                name@,
                "--"@,
                "--template"@,
                "react-ts"@,
                "--manager"@,
                "npm"@,
                "--yes"@,
            ]);
            Some(line)
        } else {
            None
        }
    }

    /// Whether the project's dependencies are installed after scaffolding.
    pub fn installs_dependencies(&self) -> (yes: bool)
        ensures
            yes == installs_dependencies_of(self.framework@),
    {
        let framework = self.framework.as_str();
        text_eq(framework, "Anchor") || text_eq(framework, "React") || text_eq(
            framework,
            "Tauri",
        )
    }

    /// The directory of the project under its user's directory.
    pub fn project_path(&self, base: &str, wallet: &str) -> (path: String)
        ensures
            path@ == user_root_of(base@, wallet@) + "/"@ + self.name@,
    {
        let mut path = user_root(base, wallet);
        path.append("/");
        path.append(self.name.as_str());
        path
    }
}

/// The directory of a user under the storage root.
pub fn user_root(base: &str, wallet: &str) -> (root: String)
    ensures
        root@ == user_root_of(base@, wallet@),
{
    let mut root = String::from_str(base);
    root.append("/");
    root.append(wallet);
    root
}

impl DeleteProjectRequest {
    /// Whether the id may be used to name the directory to delete: it must
    /// not lead out of the user's directory.
    pub fn is_valid(&self) -> (valid: bool)
        ensures
            valid == is_plain_id(self.id@),
    {
        let id = chars_of(self.id.as_str());
        !contains_chars(&id, &chars_of("..")) && !contains_chars(&id, &chars_of("/"))
            && !contains_chars(&id, &chars_of("\\"))
    }
}

} // verus!
