use yacari::compile_files;
use yacari::filesystem::stem_to_smol;
use yacari::filesystem::File;
use yacari::filesystem::Filesystem;
use yacari::smol_str::SmolStr;

#[test]
fn the_stem_of_a_path() {
    assert_eq!(stem_to_smol(b"dir/main.yac").as_str(), "main");
    assert_eq!(stem_to_smol(b"main.yac").as_str(), "main");
    assert_eq!(stem_to_smol(b"/a/b/c/module.yac").as_str(), "module");
    assert_eq!(stem_to_smol(b"x.tar.gz").as_str(), "x.tar");
    assert_eq!(stem_to_smol(b"noext").as_str(), "noext");
    assert_eq!(stem_to_smol(b"a/b/.hidden").as_str(), ".hidden");
    assert_eq!(stem_to_smol(b".hidden.yac").as_str(), ".hidden");
    assert_eq!(stem_to_smol(b"dir.d/name").as_str(), "name");
    assert_eq!(stem_to_smol(b"name.").as_str(), "name");
    assert_eq!(stem_to_smol(b"dir/").as_str(), "");
    assert_eq!(stem_to_smol(b"").as_str(), "");
    assert_eq!(stem_to_smol(b"a").as_str(), "a");
    assert_eq!(stem_to_smol(b".").as_str(), ".");
    assert_eq!(stem_to_smol(b"..").as_str(), ".");
}

struct Memory {
    files: Vec<(&'static str, &'static str)>,
}

impl Filesystem for Memory {
    fn walk_directory<T: FnMut(File)>(&self, path: &str, mut cls: T) {
        for (name, text) in &self.files {
            if name.starts_with(path) {
                cls(File {
                    path: vec![SmolStr::new(path), stem_to_smol(name.as_bytes())],
                    contents: text.to_string(),
                });
            }
        }
    }
}

#[test]
fn files_are_read_and_compiled_in_order() {
    let fs = Memory {
        files: vec![
            ("lib/one.yac", "fun one() -> i64 { 1 }"),
            ("lib/two.yac", "fun two() -> i64 { 2 } fun three() -> i64 { 3 }"),
            ("other/x.yac", "fun x() { }"),
        ],
    };
    let mut files = Vec::new();
    fs.walk_directory("lib", |file| files.push(file));
    assert_eq!(files.len(), 2);
    assert_eq!(files[1].path[1].as_str(), "two");
    let modules = compile_files(files).ok().unwrap();
    assert_eq!(modules.len(), 2);
    assert_eq!(modules[0].funcs.len(), 1);
    assert_eq!(modules[1].funcs.len(), 2);
    assert_eq!(modules[1].ast.path.len(), 2);
    assert_eq!(modules[1].ast.path[0].as_str(), "lib");
    assert_eq!(modules[1].ast.path[1].as_str(), "two");
    assert_eq!(compile_files(vec![]).ok().unwrap().len(), 0);
}

fn file(text: &str) -> File {
    File { path: vec![SmolStr::new("m")], contents: text.to_string() }
}

#[test]
fn failures_of_reading_come_before_compilation() {
    match compile_files(vec![file("fun a( { }"), file("fun b() { x }"), file("fun c() { 1 + } 7")]) {
        Err(lists) => {
            assert_eq!(lists.len(), 2);
            assert_eq!(lists[0].len(), 1);
            assert_eq!(lists[0][0].code(), 100);
            assert_eq!(lists[1].len(), 1);
            assert_eq!(lists[1][0].code(), 101);
        },
        Ok(_) => panic!(),
    }
}

#[test]
fn failures_of_compilation_are_kept_by_module() {
    match compile_files(vec![file("fun a() { }"), file("fun b() { x }"), file("fun c(p: q) { }")]) {
        Err(lists) => {
            assert_eq!(lists.len(), 2);
            assert_eq!(lists[0][0].code(), 503);
            assert_eq!(lists[1][0].code(), 200);
        },
        Ok(_) => panic!(),
    }
}
