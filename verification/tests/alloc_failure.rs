//! Failure-path test of pty allocation, alone in its own binary because it
//! narrows the process-wide descriptor limit while it runs.

use pty_relay::pty::{AllocStage, Pty};

use nix::errno::Errno;
use nix::sys::resource::{getrlimit, setrlimit, Resource};

#[test]
fn exhausted_descriptors_fail_allocation_with_stage_and_errno() {
    let (soft, hard) = getrlimit(Resource::RLIMIT_NOFILE).expect("getrlimit failed");
    setrlimit(Resource::RLIMIT_NOFILE, 3, hard).expect("setrlimit failed");
    let result = Pty::open(24, 80);
    setrlimit(Resource::RLIMIT_NOFILE, soft, hard).expect("restoring the limit failed");
    match result {
        Err(e) => {
            assert_eq!(e.stage, AllocStage::PtyOpen);
            assert_eq!(e.errno, Errno::EMFILE as i32);
        }
        Ok(pty) => {
            let _ = nix::unistd::close(pty.master);
            let _ = nix::unistd::close(pty.slave);
            panic!("allocation succeeded although no descriptor was free");
        }
    }
}
