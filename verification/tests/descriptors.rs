use frish::redirect::{apply, open_how, release, Saved};
use frish::sys::{Call, Machine, Progress, Reply, Stream};
use nix::fcntl::{open, OFlag};
use nix::sys::stat::{fstat, Mode};
use nix::unistd::{close, dup, dup2, getpid, read, unlink};

/// Makes on this process the calls that act on descriptors.
fn perform(call: Call, input: &str, output: &str) -> Reply {
    match call {
        Call::Open { stream } => {
            let how = open_how(stream);
            let mut flags = if how.read { OFlag::O_RDONLY } else { OFlag::O_WRONLY };
            if how.create {
                flags |= OFlag::O_CREAT;
            }
            if how.truncate {
                flags |= OFlag::O_TRUNC;
            }
            let path = match stream {
                Stream::Stdin => input,
                Stream::Stdout => output,
            };
            match open(path, flags, Mode::from_bits_truncate(how.mode)) {
                Ok(fd) => Reply::Fd { fd },
                Err(err) => Reply::Failed { errno: err as i32 },
            }
        }
        Call::Dup { fd } => Reply::Fd { fd: dup(fd).unwrap() },
        Call::Dup2 { from, to } => {
            dup2(from, to).unwrap();
            Reply::Done
        }
        Call::Close { fd } => {
            close(fd).unwrap();
            Reply::Done
        }
        other => panic!("not a call on descriptors: {:?}", other),
    }
}

fn drive<M: Machine>(start: Progress<M, M::Output>, input: &str, output: &str) -> M::Output {
    let mut at = start;
    loop {
        match at {
            Progress::Done(output) => return output,
            Progress::Busy(machine) => {
                let reply = perform(machine.call(), input, output);
                at = machine.resume(reply);
            }
        }
    }
}

/// What the descriptor refers to: the device and the file on it.
fn identity(fd: i32) -> (u64, u64) {
    let stat = fstat(fd).unwrap();
    (stat.st_dev as u64, stat.st_ino as u64)
}

/// Sees to it that both standard streams are open.
fn open_streams() {
    while fstat(0).is_err() || fstat(1).is_err() {
        open("/dev/null", OFlag::O_RDWR, Mode::empty()).unwrap();
    }
}

fn put(path: &str, text: &[u8]) {
    let flags = OFlag::O_WRONLY | OFlag::O_CREAT | OFlag::O_TRUNC;
    let fd = open(path, flags, Mode::from_bits_truncate(0o600)).unwrap();
    assert_eq!(nix::unistd::write(fd, text).unwrap(), text.len());
    close(fd).unwrap();
}

fn get(path: &str) -> Vec<u8> {
    let fd = open(path, OFlag::O_RDONLY, Mode::empty()).unwrap();
    let mut buf = [0u8; 64];
    let count = read(fd, &mut buf).unwrap();
    close(fd).unwrap();
    buf[..count].to_vec()
}

#[test]
fn apply_and_release_on_real_descriptors() {
    open_streams();
    let input = format!("/tmp/frish-{}-in", getpid());
    let output = format!("/tmp/frish-{}-out", getpid());
    put(&input, b"from the file");
    put(&output, b"this is cut off when the target is opened");
    let stdin = identity(0);
    let stdout = identity(1);
    let saved = drive(apply(Some(&input), Some(&output)), &input, &output);
    let saved = match saved {
        Ok(saved) => saved,
        Err(errno) => panic!("the targets cannot be opened: {}", errno),
    };
    let mut buf = [0u8; 64];
    let count = read(0, &mut buf).unwrap();
    let written = nix::unistd::write(1, b"to the file").unwrap();
    let input_now = identity(0);
    let output_now = identity(1);
    let kept = (saved.stdin.map(identity), saved.stdout.map(identity));
    drive(release(saved), &input, &output);
    assert_eq!(&buf[..count], b"from the file");
    assert_eq!(written, 11);
    assert_eq!(input_now, identity_of(&input));
    assert_eq!(output_now, identity_of(&output));
    assert_eq!(kept, (Some(stdin), Some(stdout)));
    assert_eq!(identity(0), stdin);
    assert_eq!(identity(1), stdout);
    assert!(fstat(saved.stdin.unwrap()).is_err());
    assert!(fstat(saved.stdout.unwrap()).is_err());
    assert_eq!(get(&output), b"to the file");
    unlink(input.as_str()).unwrap();
    unlink(output.as_str()).unwrap();
}

fn identity_of(path: &str) -> (u64, u64) {
    let fd = open(path, OFlag::O_RDONLY, Mode::empty()).unwrap();
    let found = identity(fd);
    close(fd).unwrap();
    found
}

#[test]
fn apply_that_fails_leaves_real_descriptors_alone() {
    open_streams();
    let input = format!("/tmp/frish-{}-only", getpid());
    let output = format!("/tmp/frish-{}-missing/out", getpid());
    put(&input, b"text");
    let stdin = identity(0);
    let stdout = identity(1);
    let unused = dup(0).unwrap();
    close(unused).unwrap();
    let result = drive(apply(Some(&input), Some(&output)), &input, &output);
    assert_eq!(result, Err(nix::errno::Errno::ENOENT as i32));
    assert_eq!(identity(0), stdin);
    assert_eq!(identity(1), stdout);
    let again = dup(0).unwrap();
    close(again).unwrap();
    assert_eq!(again, unused);
    let result = drive(apply(Some(&output), None), &output, &output);
    assert_eq!(result, Err(nix::errno::Errno::ENOENT as i32));
    assert_eq!(identity(0), stdin);
    assert_eq!(
        drive(apply(None, None), &input, &output),
        Ok(Saved { stdin: None, stdout: None })
    );
    unlink(input.as_str()).unwrap();
}
