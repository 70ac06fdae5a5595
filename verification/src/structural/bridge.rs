//! Bridge: an abstraction and its implementation are kept apart, so that
//! each can vary without the other.
//!
//! The abstraction is a file manager; the implementation is the file
//! system of an operating system, which the manager is given.

use crate::text::{join, joined, texts};
use crate::transcript::Transcript;
use vstd::prelude::*;

verus! {

/// The parts of a path, outermost first.
pub type Paths = Vec<String>;

/// The implementation: what a file system of an operating system does.
pub trait FileSystem {
    /// The text that ends a line.
    spec fn line_end(&self) -> Seq<char>;

    /// The text that stands between the parts of a path.
    spec fn separator(&self) -> Seq<char>;

    /// The line that writing the file at `path` puts out.
    spec fn write_line(&self, path: Seq<char>) -> Seq<char>;

    /// The line that reading the file at `path` puts out.
    spec fn read_line(&self, path: Seq<char>) -> Seq<char>;

    /// What every file holds.
    spec fn content(&self) -> Seq<char>;

    /// The name of the operating system, where the file system knows it.
    spec fn name(&self) -> Option<Seq<char>>;

    /// The text that ends a line.
    fn eof(&self) -> (line_end: String)
        ensures
            line_end@ == self.line_end(),
    ;

    /// The path that the parts `paths` stand for.
    fn resolve(&self, paths: Paths) -> (path: String)
        ensures
            path@ == joined(texts(paths@), self.separator()),
    ;

    /// Writes `content` to the file at `path`.
    fn write(&self, path: String, content: String, out: &mut Transcript) -> (written: bool)
        ensures
            written,
            final(out)@ == old(out)@.push(self.write_line(path@)),
    ;

    /// Reads the file at `path`.
    fn read(&self, path: String, out: &mut Transcript) -> (content: String)
        ensures
            content@ == self.content(),
            final(out)@ == old(out)@.push(self.read_line(path@)),
    ;

    /// The name of the operating system, where the file system knows it.
    fn os(&self) -> (name: Option<String>)
        ensures
            match name {
                Some(name) => self.name() == Some(name@),
                None => self.name() is None,
            },
    ;
}

/// The abstraction: what a file manager offers.
pub trait FileManager {
    /// The name of the operating system, where the manager can tell.
    spec fn os_name(&self) -> Option<Seq<char>>;

    /// The path that the parts `source` stand for.
    spec fn resolved(&self, source: Seq<Seq<char>>) -> Seq<char>;

    /// The line that a new file at `path` puts out.
    spec fn new_file_line(&self, path: Seq<char>) -> Seq<char>;

    /// Copies the file at `source`.
    fn copy_file(&self, source: Paths, out: &mut Transcript) -> (done: bool)
        requires
            self.os_name() is Some,
        ensures
            done,
            final(out)@ == old(out)@.push(
                "Copy::"@ + self.os_name().unwrap() + "::"@ + self.resolved(texts(source@)),
            ),
    ;

    /// Gives the file at `source` the name `new_name`.
    fn rename_file(&self, source: Paths, new_name: String, out: &mut Transcript) -> (done: bool)
        requires
            self.os_name() is Some,
        ensures
            done,
            final(out)@ == old(out)@.push(
                "Rename::"@ + self.os_name().unwrap() + "::"@ + self.resolved(texts(source@))
                    + " -> "@ + new_name@,
            ),
    ;

    /// Removes the file at `source`.
    fn remove_file(&self, source: Paths, out: &mut Transcript) -> (done: bool)
        requires
            self.os_name() is Some,
        ensures
            done,
            final(out)@ == old(out)@.push(
                "Remove::"@ + self.os_name().unwrap() + "::"@ + self.resolved(texts(source@)),
            ),
    ;

    /// Makes a new file at `source` that holds `content`.
    fn new_file(&self, source: Paths, content: String, out: &mut Transcript) -> (done: bool)
        ensures
            done,
            final(out)@ == old(out)@.push(self.new_file_line(self.resolved(texts(source@)))),
    ;
}

/// A file manager on top of the file system `file_system`.
pub struct ThunarFileManager<F: FileSystem> {
    pub file_system: F,
}

/// The file system of Windows.
pub struct Window {}

impl FileSystem for Window {
    open spec fn line_end(&self) -> Seq<char> {
        "\n"@
    }

    open spec fn separator(&self) -> Seq<char> {
        "\\"@
    }

    open spec fn write_line(&self, path: Seq<char>) -> Seq<char> {
        "Window:: Write file at "@ + path
    }

    open spec fn read_line(&self, path: Seq<char>) -> Seq<char> {
        "Window:: Read file at "@ + path
    }

    open spec fn content(&self) -> Seq<char> {
        "Window"@
    }

    open spec fn name(&self) -> Option<Seq<char>> {
        Some("Window"@)
    }

    fn eof(&self) -> (line_end: String) {
        "\n".to_owned()
    }

    fn resolve(&self, paths: Paths) -> (path: String) {
        join(&paths, "\\")
    }

    fn write(&self, path: String, content: String, out: &mut Transcript) -> (written: bool) {
        let mut line = "Window:: Write file at ".to_owned();
        line.append(path.as_str());
        out.record(line);
        true
    }

    fn read(&self, path: String, out: &mut Transcript) -> (content: String) {
        let mut line = "Window:: Read file at ".to_owned();
        line.append(path.as_str());
        out.record(line);
        "Window".to_owned()
    }

    fn os(&self) -> (name: Option<String>) {
        Some("Window".to_owned())
    }
}

/// The file system of macOS.
pub struct MacOS {}

impl FileSystem for MacOS {
    open spec fn line_end(&self) -> Seq<char> {
        "\nn"@
    }

    open spec fn separator(&self) -> Seq<char> {
        "/"@
    }

    open spec fn write_line(&self, path: Seq<char>) -> Seq<char> {
        "MacOS:: Write file at "@ + path
    }

    /// Reading is announced in the words of writing.
    open spec fn read_line(&self, path: Seq<char>) -> Seq<char> {
        "MacOS:: Write file at "@ + path
    }

    open spec fn content(&self) -> Seq<char> {
        "MacOS"@
    }

    open spec fn name(&self) -> Option<Seq<char>> {
        Some("MacOS"@)
    }

    fn eof(&self) -> (line_end: String) {
        "\nn".to_owned()
    }

    fn resolve(&self, paths: Paths) -> (path: String) {
        join(&paths, "/")
    }

    fn write(&self, path: String, content: String, out: &mut Transcript) -> (written: bool) {
        let mut line = "MacOS:: Write file at ".to_owned();
        line.append(path.as_str());
        out.record(line);
        true
    }

    fn read(&self, path: String, out: &mut Transcript) -> (content: String) {
        let mut line = "MacOS:: Write file at ".to_owned();
        line.append(path.as_str());
        out.record(line);
        "MacOS".to_owned()
    }

    fn os(&self) -> (name: Option<String>) {
        Some("MacOS".to_owned())
    }
}

/// The file system of Linux. It has no name for its operating system.
pub struct Linux {}

impl FileSystem for Linux {
    open spec fn line_end(&self) -> Seq<char> {
        "\n"@
    }

    open spec fn separator(&self) -> Seq<char> {
        "/"@
    }

    open spec fn write_line(&self, path: Seq<char>) -> Seq<char> {
        "Linux::write at "@ + path
    }

    open spec fn read_line(&self, path: Seq<char>) -> Seq<char> {
        "Linux::read at "@ + path
    }

    open spec fn content(&self) -> Seq<char> {
        "Linux"@
    }

    open spec fn name(&self) -> Option<Seq<char>> {
        None
    }

    fn eof(&self) -> (line_end: String) {
        "\n".to_owned()
    }

    fn resolve(&self, paths: Paths) -> (path: String) {
        join(&paths, "/")
    }

    fn write(&self, path: String, content: String, out: &mut Transcript) -> (written: bool) {
        let mut line = "Linux::write at ".to_owned();
        line.append(path.as_str());
        out.record(line);
        true
    }

    fn read(&self, path: String, out: &mut Transcript) -> (content: String) {
        let mut line = "Linux::read at ".to_owned();
        line.append(path.as_str());
        out.record(line);
        "Linux".to_owned()
    }

    fn os(&self) -> (name: Option<String>) {
        None
    }
}

/// The file system of an operating system chosen while the program runs.
pub enum AnyFileSystem {
    Window(Window),
    MacOS(MacOS),
    Linux(Linux),
}

impl FileSystem for AnyFileSystem {
    open spec fn line_end(&self) -> Seq<char> {
        match self {
            AnyFileSystem::Window(file_system) => file_system.line_end(),
            AnyFileSystem::MacOS(file_system) => file_system.line_end(),
            AnyFileSystem::Linux(file_system) => file_system.line_end(),
        }
    }

    open spec fn separator(&self) -> Seq<char> {
        match self {
            AnyFileSystem::Window(file_system) => file_system.separator(),
            AnyFileSystem::MacOS(file_system) => file_system.separator(),
            AnyFileSystem::Linux(file_system) => file_system.separator(),
        }
    }

    open spec fn write_line(&self, path: Seq<char>) -> Seq<char> {
        match self {
            AnyFileSystem::Window(file_system) => file_system.write_line(path),
            AnyFileSystem::MacOS(file_system) => file_system.write_line(path),
            AnyFileSystem::Linux(file_system) => file_system.write_line(path),
        }
    }

    open spec fn read_line(&self, path: Seq<char>) -> Seq<char> {
        match self {
            AnyFileSystem::Window(file_system) => file_system.read_line(path),
            AnyFileSystem::MacOS(file_system) => file_system.read_line(path),
            AnyFileSystem::Linux(file_system) => file_system.read_line(path),
        }
    }

    open spec fn content(&self) -> Seq<char> {
        match self {
            AnyFileSystem::Window(file_system) => file_system.content(),
            AnyFileSystem::MacOS(file_system) => file_system.content(),
            AnyFileSystem::Linux(file_system) => file_system.content(),
        }
    }

    open spec fn name(&self) -> Option<Seq<char>> {
        match self {
            AnyFileSystem::Window(file_system) => file_system.name(),
            AnyFileSystem::MacOS(file_system) => file_system.name(),
            AnyFileSystem::Linux(file_system) => file_system.name(),
        }
    }

    fn eof(&self) -> (line_end: String) {
        match self {
            AnyFileSystem::Window(file_system) => file_system.eof(),
            AnyFileSystem::MacOS(file_system) => file_system.eof(),
            AnyFileSystem::Linux(file_system) => file_system.eof(),
        }
    }

    fn resolve(&self, paths: Paths) -> (path: String) {
        match self {
            AnyFileSystem::Window(file_system) => file_system.resolve(paths),
            AnyFileSystem::MacOS(file_system) => file_system.resolve(paths),
            AnyFileSystem::Linux(file_system) => file_system.resolve(paths),
        }
    }

    fn write(&self, path: String, content: String, out: &mut Transcript) -> (written: bool) {
        match self {
            AnyFileSystem::Window(file_system) => file_system.write(path, content, out),
            AnyFileSystem::MacOS(file_system) => file_system.write(path, content, out),
            AnyFileSystem::Linux(file_system) => file_system.write(path, content, out),
        }
    }

    fn read(&self, path: String, out: &mut Transcript) -> (content: String) {
        match self {
            AnyFileSystem::Window(file_system) => file_system.read(path, out),
            AnyFileSystem::MacOS(file_system) => file_system.read(path, out),
            AnyFileSystem::Linux(file_system) => file_system.read(path, out),
        }
    }

    fn os(&self) -> (name: Option<String>) {
        match self {
            AnyFileSystem::Window(file_system) => file_system.os(),
            AnyFileSystem::MacOS(file_system) => file_system.os(),
            AnyFileSystem::Linux(file_system) => file_system.os(),
        }
    }
}

impl<F: FileSystem> FileManager for ThunarFileManager<F> {
    open spec fn os_name(&self) -> Option<Seq<char>> {
        self.file_system.name()
    }

    open spec fn resolved(&self, source: Seq<Seq<char>>) -> Seq<char> {
        joined(source, self.file_system.separator())
    }

    open spec fn new_file_line(&self, path: Seq<char>) -> Seq<char> {
        self.file_system.write_line(path)
    }

    fn copy_file(&self, paths: Paths, out: &mut Transcript) -> (done: bool) {
        let absolute_path = self.file_system.resolve(paths);
        let mut line = "Copy::".to_owned();
        line.append(self.file_system.os().unwrap().as_str());
        line.append("::");
        line.append(absolute_path.as_str());
        out.record(line);
        true
    }

    fn rename_file(&self, paths: Paths, new_name: String, out: &mut Transcript) -> (done: bool) {
        let absolute_path = self.file_system.resolve(paths);
        let mut line = "Rename::".to_owned();
        line.append(self.file_system.os().unwrap().as_str());
        line.append("::");
        line.append(absolute_path.as_str());
        line.append(" -> ");
        line.append(new_name.as_str());
        out.record(line);
        true
    }

    fn remove_file(&self, paths: Paths, out: &mut Transcript) -> (done: bool) {
        let absolute_path = self.file_system.resolve(paths);
        let mut line = "Remove::".to_owned();
        line.append(self.file_system.os().unwrap().as_str());
        line.append("::");
        line.append(absolute_path.as_str());
        out.record(line);
        true
    }

    fn new_file(&self, paths: Paths, content: String, out: &mut Transcript) -> (done: bool) {
        let absolute_path = self.file_system.resolve(paths);
        self.file_system.write(absolute_path, content, out)
    }
}

/// The operating systems on offer.
pub enum OS {
    Window,
    MacOS,
    Linux,
}

/// The file manager for the operating system `os`.
pub fn get_os_file_system(os: OS) -> (manager: ThunarFileManager<AnyFileSystem>)
    ensures
        os is Window <==> manager.file_system is Window,
        os is MacOS <==> manager.file_system is MacOS,
        os is Linux <==> manager.file_system is Linux,
{
    match os {
        OS::Window => ThunarFileManager { file_system: AnyFileSystem::Window(Window {  }) },
        OS::MacOS => ThunarFileManager { file_system: AnyFileSystem::MacOS(MacOS {  }) },
        OS::Linux => ThunarFileManager { file_system: AnyFileSystem::Linux(Linux {  }) },
    }
}

/// The parts of the path that [`demo_bridge`] makes its files at.
fn demo_path() -> (paths: Paths)
    ensures
        texts(paths@) == seq!["home"@, "tiny"@],
{
    let mut paths: Paths = Vec::new();
    paths.push("home".to_owned());
    paths.push("tiny".to_owned());
    paths
}

/// What [`demo_bridge`] puts out.
pub open spec fn demo_bridge_lines() -> Seq<Seq<char>> {
    seq![
        "Window:: Write file at "@ + ("home"@ + "\\"@ + "tiny"@),
        "MacOS:: Write file at "@ + ("home"@ + "/"@ + "tiny"@),
        "Linux::write at "@ + ("home"@ + "/"@ + "tiny"@),
    ]
}

/// Makes the same new file with the file manager of each operating system.
pub fn demo_bridge(out: &mut Transcript)
    ensures
        final(out)@ == old(out)@ + demo_bridge_lines(),
{
    proof {
        reveal_with_fuel(joined, 3);
    }
    let thunar_window = get_os_file_system(OS::Window);
    thunar_window.new_file(demo_path(), "this is content".to_owned(), out);
    let thunar_macos = get_os_file_system(OS::MacOS);
    thunar_macos.new_file(demo_path(), "this is content".to_owned(), out);
    let thunar_linux = get_os_file_system(OS::Linux);
    thunar_linux.new_file(demo_path(), "this is content".to_owned(), out);
}

} // verus!
