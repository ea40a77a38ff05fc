use proc_spawn::exit_status::ChildStatus;
use proc_spawn::stdio::{ChildStdio, Stdio, StdioOrRid};
use proc_spawn::sync_capture::{assemble_sync_output, capture_flags};

fn status_ok() -> ChildStatus {
    ChildStatus { success: true, code: 0, signal: None }
}

fn stdio(stdout: StdioOrRid, stderr: StdioOrRid) -> ChildStdio {
    ChildStdio { stdin: StdioOrRid::Stdio(Stdio::Null), stdout, stderr }
}

#[test]
fn buffers_present_iff_piped_each_stream_independently() {
    let modes = [
        StdioOrRid::Stdio(Stdio::Piped),
        StdioOrRid::Stdio(Stdio::Inherit),
        StdioOrRid::Stdio(Stdio::Null),
        StdioOrRid::Rid(5),
    ];
    for out_mode in modes {
        for err_mode in modes {
            let s = stdio(out_mode, err_mode);
            let r = assemble_sync_output(&s, status_ok(), vec![1, 2], vec![3]);
            let want_out = out_mode == StdioOrRid::Stdio(Stdio::Piped);
            let want_err = err_mode == StdioOrRid::Stdio(Stdio::Piped);
            assert_eq!(r.stdout.is_some(), want_out);
            assert_eq!(r.stderr.is_some(), want_err);
            if want_out {
                assert_eq!(r.stdout.as_deref(), Some(&[1u8, 2][..]));
            }
            if want_err {
                assert_eq!(r.stderr.as_deref(), Some(&[3u8][..]));
            }
            assert_eq!(r.status, status_ok());
        }
    }
}

#[test]
fn capture_flags_follow_the_requested_modes() {
    let s = stdio(StdioOrRid::Stdio(Stdio::Piped), StdioOrRid::Stdio(Stdio::Inherit));
    assert_eq!(capture_flags(&s), (true, false));
    let s = stdio(StdioOrRid::Rid(1), StdioOrRid::Stdio(Stdio::Piped));
    assert_eq!(capture_flags(&s), (false, true));
}
