use libuv::{
    c_string, c_string_array, spawn_strings, NulError, ProcessFlags, ProcessOptions,
    StdioContainer,
};

#[test]
fn c_string_appends_a_nul() {
    assert_eq!(c_string("abc"), Ok(vec![b'a', b'b', b'c', 0]));
    assert_eq!(c_string(""), Ok(vec![0]));
    assert_eq!(c_string("é"), Ok(vec![0xc3, 0xa9, 0]));
}

#[test]
fn c_string_rejects_an_inner_nul() {
    assert_eq!(c_string("ab\0c\0"), Err(NulError { position: 2 }));
    assert_eq!(c_string("\0"), Err(NulError { position: 0 }));
}

#[test]
fn c_string_array_reports_the_first_bad_item() {
    assert_eq!(
        c_string_array(&["ls", "-l"]),
        Ok(vec![vec![b'l', b's', 0], vec![b'-', b'l', 0]])
    );
    assert_eq!(c_string_array(&[]), Ok(vec![]));
    assert_eq!(c_string_array(&["ok", "x\0", "\0"]), Err(NulError { position: 1 }));
}

fn options<'a>(
    file: &'a str,
    args: &'a [&'a str],
    env: Option<&'a [&'a str]>,
    cwd: Option<&'a str>,
    stdio: &'a [StdioContainer<()>],
) -> ProcessOptions<'a, fn(i64, i32), ()> {
    ProcessOptions {
        exit_cb: None,
        file,
        args,
        env,
        cwd,
        flags: ProcessFlags::empty(),
        stdio,
        uid: 0,
        gid: 0,
    }
}

#[test]
fn spawn_strings_converts_everything() {
    let stdio: [StdioContainer<()>; 0] = [];
    let args = ["/bin/echo", "hi"];
    let env = ["A=1"];
    let o = options("/bin/echo", &args, Some(&env), Some("/tmp"), &stdio);
    let s = spawn_strings(&o).unwrap();
    assert_eq!(s.file, b"/bin/echo\0".to_vec());
    assert_eq!(s.args, vec![b"/bin/echo\0".to_vec(), b"hi\0".to_vec()]);
    assert_eq!(s.env, Some(vec![b"A=1\0".to_vec()]));
    assert_eq!(s.cwd, Some(b"/tmp\0".to_vec()));

    let o = options("true", &[], None, None, &stdio);
    let s = spawn_strings(&o).unwrap();
    assert!(s.args.is_empty());
    assert!(s.env.is_none());
    assert!(s.cwd.is_none());
}

#[test]
fn spawn_strings_reports_the_first_bad_string() {
    let stdio: [StdioContainer<()>; 0] = [];
    let o = options("bad\0file", &["a\0"], None, Some("\0"), &stdio);
    assert_eq!(spawn_strings(&o).err(), Some(NulError { position: 3 }));
    let o = options("file", &["ok", "a\0"], None, Some("\0"), &stdio);
    assert_eq!(spawn_strings(&o).err(), Some(NulError { position: 1 }));
    let env = ["X\0"];
    let o = options("file", &["ok"], Some(&env), Some("\0"), &stdio);
    assert_eq!(spawn_strings(&o).err(), Some(NulError { position: 1 }));
    let o = options("file", &["ok"], None, Some("/x\0"), &stdio);
    assert_eq!(spawn_strings(&o).err(), Some(NulError { position: 2 }));
}
