use transcode::args::{concat_args, resize_args, scale_arg, trim_args};
use transcode::error::CommandError;
use transcode::manifest::concat_manifest;
use transcode::ops::{merge, resize, trim};
use transcode::progress::{ProgressEvent, FULL_PROGRESS};
use transcode::supervisor::{exit_error, Phase, ProcessEvent};

fn position(v: &[String], tok: &str) -> usize {
    v.iter().position(|s| s == tok).unwrap()
}

#[test]
fn trim_arguments_in_order() {
    let a = trim_args("in.mp4", "out.mp4", "2.5", "4");
    assert_eq!(
        a,
        vec![
            "-i", "in.mp4", "-ss", "2.5", "-t", "4", "-c", "copy", "-y", "-progress", "pipe:1",
            "out.mp4"
        ]
    );
    let ss = position(&a, "-ss");
    let t = position(&a, "-t");
    assert_eq!(a[ss + 1], "2.5");
    assert_eq!(a[t + 1], "4");
    assert!(ss < t);
    assert_eq!(a[position(&a, "-c") + 1], "copy");
    assert_eq!(a[position(&a, "-progress") + 1], "pipe:1");
    assert!(a.contains(&"-y".to_string()));
}

#[test]
fn resize_arguments() {
    assert_eq!(scale_arg(1280, 720), "scale=1280:720");
    assert_eq!(scale_arg(0, 4294967295), "scale=0:4294967295");
    let a = resize_args("in.mp4", "out.mp4", 640, 360);
    assert_eq!(
        a,
        vec![
            "-i", "in.mp4", "-vf", "scale=640:360", "-c:a", "copy", "-y", "-progress", "pipe:1",
            "out.mp4"
        ]
    );
}

#[test]
fn concat_arguments() {
    let a = concat_args("/tmp/concats.txt", "merged.mp4");
    assert_eq!(
        a,
        vec![
            "-f", "concat", "-safe", "0", "-i", "/tmp/concats.txt", "-c", "copy", "-y",
            "-progress", "pipe:1", "merged.mp4"
        ]
    );
}

#[test]
fn manifest_two_inputs() {
    let inputs = vec!["a b.mp4".to_string(), "c\\d.mp4".to_string()];
    let m = concat_manifest(&inputs).unwrap();
    let text = String::from_utf8(m).unwrap();
    let lines: Vec<&str> = text.lines().collect();
    assert_eq!(lines, vec!["file 'a b.mp4'", "file 'c/d.mp4'"]);
    assert_eq!(text, "file 'a b.mp4'\nfile 'c/d.mp4'\n");
}

#[test]
fn manifest_keeps_non_ascii() {
    let inputs = vec!["C:\\vidéos\\ü.mp4".to_string()];
    let m = concat_manifest(&inputs).unwrap();
    assert_eq!(String::from_utf8(m).unwrap(), "file 'C:/vidéos/ü.mp4'\n");
}

#[test]
fn manifest_empty_is_io_error() {
    assert!(matches!(concat_manifest(&Vec::new()), Err(CommandError::IoError(_))));
}

#[test]
fn merge_empty_is_validation_error() {
    let r = merge(&Vec::new(), "/tmp/concats.txt", "merged.mp4", 1_000_000);
    match r {
        Err(CommandError::Validation(m)) => assert_eq!(m, "No input files provided"),
        _ => panic!("expected a validation error"),
    }
}

#[test]
fn merge_plan_holds_manifest() {
    let inputs = vec!["x\\a.mp4".to_string(), "b.mp4".to_string()];
    let op = merge(&inputs, "x/concats.txt", "x/merged.mp4", 2_000_000).unwrap();
    let m = op.manifest.unwrap();
    assert_eq!(m.path, "x/concats.txt");
    assert_eq!(m.contents, b"file 'x/a.mp4'\nfile 'b.mp4'\n".to_vec());
    assert_eq!(op.args[5], "x/concats.txt");
    assert_eq!(op.supervisor.output(), "x/merged.mp4");
    assert_eq!(op.supervisor.phase(), Phase::Spawning);
}

#[test]
fn successful_run_reaches_full_progress() {
    let mut op = trim("in.mp4", "out.mp4", "0", "1", 1_000_000);
    let sup = &mut op.supervisor;
    sup.spawned();
    let e1 = sup.on_event(ProcessEvent::Stdout(b"out_time_us=500000\n".to_vec())).unwrap();
    assert_eq!(e1, vec![ProgressEvent { micro_percent: 50_000_000 }]);
    let e2 = sup.on_event(ProcessEvent::Stdout(b"out_time_us=1000000\n".to_vec())).unwrap();
    assert_eq!(e2, vec![ProgressEvent { micro_percent: FULL_PROGRESS }]);
    assert_eq!(FULL_PROGRESS as f64 / 1_000_000.0, 100.0);
    let e3 = sup.on_event(ProcessEvent::Terminated(Some(0))).unwrap();
    assert!(e3.is_empty());
    assert_eq!(sup.phase(), Phase::Running);
    assert_eq!(sup.on_closed().unwrap(), "out.mp4");
    assert_eq!(sup.phase(), Phase::Succeeded);
}

#[test]
fn nonzero_exit_is_process_error() {
    let mut op = resize("in.mp4", "out.mp4", 640, 360, 1_000_000);
    let sup = &mut op.supervisor;
    sup.spawned();
    let e = sup.on_event(ProcessEvent::Stdout(b"out_time_us=250000\n".to_vec())).unwrap();
    assert_eq!(e, vec![ProgressEvent { micro_percent: 25_000_000 }]);
    match sup.on_event(ProcessEvent::Terminated(Some(1))) {
        Err(err @ CommandError::FFmpegError(_)) => {
            let msg = err.message();
            assert!(msg.contains('1'));
            assert_eq!(msg, "FFmpeg error: FFmpeg process exited with code 1");
        }
        _ => panic!("expected a process error"),
    }
    assert_eq!(sup.phase(), Phase::Failed);
}

#[test]
fn exit_error_negative_code() {
    match exit_error(-9) {
        CommandError::FFmpegError(m) => assert_eq!(m, "FFmpeg process exited with code -9"),
        _ => panic!("expected a process error"),
    }
}

#[test]
fn exit_without_code_drains() {
    let mut op = trim("in.mp4", "out.mp4", "0", "1", 0);
    let sup = &mut op.supervisor;
    sup.spawned();
    assert!(sup.on_event(ProcessEvent::Terminated(None)).unwrap().is_empty());
    let e = sup.on_event(ProcessEvent::Stdout(b"out_time_us=5\n".to_vec())).unwrap();
    assert!(e.is_empty());
    assert!(sup.on_event(ProcessEvent::Stderr(b"warning\n".to_vec())).unwrap().is_empty());
    assert_eq!(sup.on_closed().unwrap(), "out.mp4");
}

#[test]
fn host_error_and_spawn_failure() {
    let mut op = trim("in.mp4", "out.mp4", "0", "1", 1_000_000);
    let sup = &mut op.supervisor;
    sup.spawned();
    match sup.on_event(ProcessEvent::Error("pipe broke".to_string())) {
        Err(CommandError::FFmpegError(m)) => assert_eq!(m, "pipe broke"),
        _ => panic!("expected a process error"),
    }
    let mut op2 = trim("in.mp4", "out.mp4", "0", "1", 1_000_000);
    let err = op2.supervisor.spawn_failed("not found".to_string());
    assert_eq!(err.message(), "FFmpeg error: not found");
    assert_eq!(op2.supervisor.phase(), Phase::Failed);
}

#[test]
fn error_messages() {
    assert_eq!(CommandError::IoError("disk".to_string()).message(), "IO error: disk");
    assert_eq!(CommandError::JsonError("bad".to_string()).message(), "Serialization error: bad");
    assert_eq!(
        CommandError::Validation("none".to_string()).message(),
        "Validation error: none"
    );
}
