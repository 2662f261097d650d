use shrink_ray::comment::Comment;
use shrink_ray::delta::Delta;
use shrink_ray::error::Error;
use shrink_ray::options::OutputOptions;
use shrink_ray::shrink::Gm;
use shrink_ray::shrink::FFMpeg;
use shrink_ray::shrink::ShrinkTool;
use shrink_ray::shrink::ToolKind;
use shrink_ray::supervisor::ExitInfo;
use shrink_ray::supervisor::SupervisorOutcome;
use shrink_ray::transaction::destination_for;
use shrink_ray::transaction::probe_outcome;
use shrink_ray::transaction::Transaction;
use shrink_ray::transaction::TransactionAction;
use shrink_ray::transaction::TransactionEvent;

fn in_place() -> OutputOptions {
    OutputOptions { file: None, dir: None }
}

fn gm_tool() -> ShrinkTool {
    ShrinkTool::Gm(Gm { path: String::from("/usr/bin/gm") })
}

fn ffmpeg_tool() -> ShrinkTool {
    ShrinkTool::FFMpeg(FFMpeg { path: String::from("/usr/bin/ffmpeg") })
}

fn good_run() -> Result<SupervisorOutcome, Error> {
    Ok(SupervisorOutcome { exit: ExitInfo { success: true, code: Some(0) }, cancelled: false })
}

/// Drive a fresh image transaction up to the probe phase.
fn drive_to_probe(input: &str, mime: &str) -> Transaction {
    let mut t = Transaction::new(String::from(input), in_place(), false);
    assert!(matches!(t.step(TransactionEvent::Begin), TransactionAction::CheckInput { .. }));
    assert!(matches!(
        t.step(TransactionEvent::InputStatus { exists: true, symlink: false }),
        TransactionAction::Identify { .. }
    ));
    assert!(matches!(
        t.step(TransactionEvent::Identified(Ok(Some(String::from(mime))))),
        TransactionAction::ResolveTool { .. }
    ));
    match t.step(TransactionEvent::ToolResolved(Ok(gm_tool()))) {
        TransactionAction::RunProbe { input: p, .. } => assert_eq!(p, input),
        _ => panic!("a resolved tool is probed"),
    }
    t
}

#[test]
fn missing_input_fails_fast() {
    let mut t = Transaction::new(String::from("gone.png"), in_place(), false);
    let _ = t.step(TransactionEvent::Begin);
    match t.step(TransactionEvent::InputStatus { exists: false, symlink: false }) {
        TransactionAction::Finish(Err(Error::InputNotFound(p))) => assert_eq!(p, "gone.png"),
        _ => panic!("a missing input is NotFound"),
    }
    assert!(t.is_done());
}

#[test]
fn symlink_input_fails_fast() {
    let mut t = Transaction::new(String::from("link.png"), in_place(), false);
    let _ = t.step(TransactionEvent::Begin);
    match t.step(TransactionEvent::InputStatus { exists: true, symlink: true }) {
        TransactionAction::Finish(Err(Error::InputIsSymlink(p))) => assert_eq!(p, "link.png"),
        _ => panic!("a symlink input is rejected"),
    }
}

#[test]
fn scenario_gif_is_skipped_without_output() {
    // A gif identifies fine but selects no tool: the job reports
    // Unsupported before any tool, probe or output path is requested.
    let mut t = Transaction::new(String::from("anim.gif"), in_place(), false);
    let _ = t.step(TransactionEvent::Begin);
    let _ = t.step(TransactionEvent::InputStatus { exists: true, symlink: false });
    match t.step(TransactionEvent::Identified(Ok(Some(String::from("image/gif"))))) {
        TransactionAction::Finish(Err(Error::InputFormatUnknown(p))) => assert_eq!(p, "anim.gif"),
        _ => panic!("gif must be skipped as unsupported"),
    }
    assert!(t.is_done());
}

#[test]
fn unidentified_input_is_skipped() {
    let mut t = Transaction::new(String::from("blob"), in_place(), false);
    let _ = t.step(TransactionEvent::Begin);
    let _ = t.step(TransactionEvent::InputStatus { exists: true, symlink: false });
    match t.step(TransactionEvent::Identified(Ok(None))) {
        TransactionAction::Finish(Err(Error::InputFormatUnknown(_))) => {}
        _ => panic!("an unidentified input is skipped"),
    }
}

#[test]
fn scenario_marker_already_converted() {
    // The probe finds this tool's marker: the job reports
    // AlreadyConverted at once, before any conversion is invoked.
    let mut t = drive_to_probe("photo.jpg", "image/jpeg");
    let marker = Comment { version: String::from("1.2.0") };
    match t.step(TransactionEvent::Probed(Ok(Some(marker)))) {
        TransactionAction::Finish(Err(Error::AlreadyConverted(c))) => {
            assert_eq!(c.version, "1.2.0");
        }
        _ => panic!("a marked input is skipped"),
    }
    assert!(t.is_done());
}

#[test]
fn scenario_second_run_skips() {
    // First run: the argv embeds the fresh marker. Re-probing an output
    // that carries exactly that marker resolves AlreadyConverted.
    let mut first = drive_to_probe("in.png", "image/png");
    let _ = first.step(TransactionEvent::Probed(Ok(None)));
    let embedded = match first.step(TransactionEvent::OutputReady(Ok(String::from("in-tmp.jpg")))) {
        TransactionAction::RunImageTool { marker, .. } => marker,
        _ => panic!("an image runs a single pass"),
    };
    assert_eq!(embedded, "shrink-ray/1.2.0");

    let probe_text = format!("  Comment: {}\n", embedded);
    let exit = ExitInfo { success: true, code: Some(0) };
    let read = probe_outcome(ToolKind::Image, exit, probe_text.as_str());
    let found = match read {
        Ok(Some(c)) => c,
        _ => panic!("the embedded marker must be read back"),
    };

    let mut second = drive_to_probe("in.jpg", "image/jpeg");
    match second.step(TransactionEvent::Probed(Ok(Some(found)))) {
        TransactionAction::Finish(Err(Error::AlreadyConverted(c))) => {
            assert_eq!(c.version, "1.2.0");
        }
        _ => panic!("the second run must skip"),
    }
}

#[test]
fn image_happy_path_with_replace() {
    let mut t = drive_to_probe("d/in.png", "image/png");
    assert!(matches!(
        t.step(TransactionEvent::Probed(Ok(None))),
        TransactionAction::AllocateOutput { .. }
    ));
    match t.step(TransactionEvent::OutputReady(Ok(String::from("d/in-abc.jpg")))) {
        TransactionAction::RunImageTool { input, marker, output, .. } => {
            assert_eq!(input, "d/in.png");
            assert_eq!(marker, "shrink-ray/1.2.0");
            assert_eq!(output, "d/in-abc.jpg");
        }
        _ => panic!("an image runs a single pass"),
    }
    match t.step(TransactionEvent::ToolFinished(good_run())) {
        TransactionAction::Measure { input, output } => {
            assert_eq!(input, "d/in.png");
            assert_eq!(output, "d/in-abc.jpg");
        }
        _ => panic!("a successful run is measured"),
    }
    match t.step(TransactionEvent::Measured(Ok(Delta::new(10_000_000, 6_000_000)))) {
        TransactionAction::CheckDestination { input, output } => {
            assert_eq!(input, "d/in.png");
            assert_eq!(output, "d/in-abc.jpg");
        }
        _ => panic!("in-place output goes through the replace"),
    }
    let destination = destination_for("d/in.png", "d/in-abc.jpg");
    assert_eq!(destination, "d/in.jpg");
    assert!(matches!(
        t.step(TransactionEvent::DestinationStatus { destination, exists: false }),
        TransactionAction::AllocateReplaceTemp { .. }
    ));
    match t.step(TransactionEvent::TempReady(String::from("d/in-zzzzzzzzpng"))) {
        TransactionAction::Rename { from, to } => {
            assert_eq!(from, "d/in.png");
            assert_eq!(to, "d/in-zzzzzzzzpng");
        }
        _ => panic!("the input is relocated first"),
    }
    match t.step(TransactionEvent::Renamed(Ok(()))) {
        TransactionAction::Rename { from, to } => {
            assert_eq!(from, "d/in-abc.jpg");
            assert_eq!(to, "d/in.jpg");
        }
        _ => panic!("the output then takes the destination"),
    }
    match t.step(TransactionEvent::Renamed(Ok(()))) {
        TransactionAction::DeleteIfExists { path } => assert_eq!(path, "d/in-zzzzzzzzpng"),
        _ => panic!("the relocated original is removed last"),
    }
    match t.step(TransactionEvent::CleanupDone) {
        TransactionAction::Finish(Ok(d)) => {
            assert_eq!(d.original, 10_000_000);
            assert_eq!(d.new, 6_000_000);
            assert!(d.is_smaller());
        }
        _ => panic!("the job resolves with its delta"),
    }
    assert!(t.is_done());
}

#[test]
fn scenario_replace_collision_mutates_nothing() {
    // The destination exists and is not the input: the job fails at
    // once; no rename was ever requested.
    let mut t = drive_to_probe("d/in.png", "image/png");
    let _ = t.step(TransactionEvent::Probed(Ok(None)));
    let _ = t.step(TransactionEvent::OutputReady(Ok(String::from("d/in-abc.jpg"))));
    let _ = t.step(TransactionEvent::ToolFinished(good_run()));
    let _ = t.step(TransactionEvent::Measured(Ok(Delta::new(100, 60))));
    match t.step(TransactionEvent::DestinationStatus {
        destination: String::from("d/in.jpg"),
        exists: true,
    }) {
        TransactionAction::Finish(Err(Error::OutputExists(p))) => assert_eq!(p, "d/in.jpg"),
        _ => panic!("a taken destination fails the replace"),
    }
    assert!(t.is_done());
}

#[test]
fn replace_proceeds_when_destination_is_the_input() {
    let mut t = drive_to_probe("d/in.jpg", "image/jpeg");
    let _ = t.step(TransactionEvent::Probed(Ok(None)));
    let _ = t.step(TransactionEvent::OutputReady(Ok(String::from("d/in-abc.jpg"))));
    let _ = t.step(TransactionEvent::ToolFinished(good_run()));
    let _ = t.step(TransactionEvent::Measured(Ok(Delta::new(100, 60))));
    assert!(matches!(
        t.step(TransactionEvent::DestinationStatus {
            destination: String::from("d/in.jpg"),
            exists: true,
        }),
        TransactionAction::AllocateReplaceTemp { .. }
    ));
}

#[test]
fn scenario_cancel_mid_conversion_cleans_partial_output() {
    // The supervisor reports cancelled; whatever the exit status, the
    // partial output is deleted and the job resolves Cancelled.
    let mut t = drive_to_probe("in.png", "image/png");
    let _ = t.step(TransactionEvent::Probed(Ok(None)));
    let _ = t.step(TransactionEvent::OutputReady(Ok(String::from("in-abc.jpg"))));
    let cancelled = Ok(SupervisorOutcome {
        exit: ExitInfo { success: false, code: Some(1) },
        cancelled: true,
    });
    match t.step(TransactionEvent::ToolFinished(cancelled)) {
        TransactionAction::DeleteIfExists { path } => assert_eq!(path, "in-abc.jpg"),
        _ => panic!("a cancelled run cleans its partial output"),
    }
    match t.step(TransactionEvent::CleanupDone) {
        TransactionAction::Finish(Err(Error::Cancelled)) => {}
        _ => panic!("cancellation takes precedence over the exit status"),
    }
}

#[test]
fn failed_invocation_cleans_and_reports() {
    let mut t = drive_to_probe("in.png", "image/png");
    let _ = t.step(TransactionEvent::Probed(Ok(None)));
    let _ = t.step(TransactionEvent::OutputReady(Ok(String::from("in-abc.jpg"))));
    let failed = Ok(SupervisorOutcome {
        exit: ExitInfo { success: false, code: Some(2) },
        cancelled: false,
    });
    assert!(matches!(
        t.step(TransactionEvent::ToolFinished(failed)),
        TransactionAction::DeleteIfExists { .. }
    ));
    match t.step(TransactionEvent::CleanupDone) {
        TransactionAction::Finish(Err(Error::Invocation(k, x))) => {
            assert_eq!(k, ToolKind::Image);
            assert_eq!(x.code, Some(2));
        }
        _ => panic!("a non-zero exit is an invocation failure"),
    }
}

#[test]
fn no_grow_discards_grown_output() {
    let mut t = Transaction::new(String::from("in.png"), in_place(), true);
    let _ = t.step(TransactionEvent::Begin);
    let _ = t.step(TransactionEvent::InputStatus { exists: true, symlink: false });
    let _ = t.step(TransactionEvent::Identified(Ok(Some(String::from("image/png")))));
    let _ = t.step(TransactionEvent::ToolResolved(Ok(gm_tool())));
    let _ = t.step(TransactionEvent::Probed(Ok(None)));
    let _ = t.step(TransactionEvent::OutputReady(Ok(String::from("in-abc.jpg"))));
    let _ = t.step(TransactionEvent::ToolFinished(good_run()));
    match t.step(TransactionEvent::Measured(Ok(Delta::new(100, 140)))) {
        TransactionAction::DeleteOutput { path } => assert_eq!(path, "in-abc.jpg"),
        _ => panic!("growth is discarded under no-grow"),
    }
    match t.step(TransactionEvent::Deleted(Ok(()))) {
        TransactionAction::Finish(Ok(d)) => {
            assert_eq!(d.original, 100);
            assert_eq!(d.new, 140);
            assert!(!d.is_smaller());
        }
        _ => panic!("the delta is still reported"),
    }
}

#[test]
fn explicit_output_skips_the_replace() {
    let mut t = Transaction::new(
        String::from("in.png"),
        OutputOptions { file: Some(String::from("out.jpg")), dir: None },
        false,
    );
    let _ = t.step(TransactionEvent::Begin);
    let _ = t.step(TransactionEvent::InputStatus { exists: true, symlink: false });
    let _ = t.step(TransactionEvent::Identified(Ok(Some(String::from("image/png")))));
    let _ = t.step(TransactionEvent::ToolResolved(Ok(gm_tool())));
    let _ = t.step(TransactionEvent::Probed(Ok(None)));
    let _ = t.step(TransactionEvent::OutputReady(Ok(String::from("out.jpg"))));
    let _ = t.step(TransactionEvent::ToolFinished(good_run()));
    match t.step(TransactionEvent::Measured(Ok(Delta::new(100, 60)))) {
        TransactionAction::Finish(Ok(d)) => assert_eq!(d.new, 60),
        _ => panic!("an explicit output stays where it is"),
    }
}

#[test]
fn video_two_passes_and_log_cleanup() {
    let mut t = Transaction::new(String::from("in.mp4"), in_place(), false);
    let _ = t.step(TransactionEvent::Begin);
    let _ = t.step(TransactionEvent::InputStatus { exists: true, symlink: false });
    let _ = t.step(TransactionEvent::Identified(Ok(Some(String::from("video/mp4")))));
    let _ = t.step(TransactionEvent::ToolResolved(Ok(ffmpeg_tool())));
    assert!(matches!(
        t.step(TransactionEvent::Probed(Ok(None))),
        TransactionAction::AllocateOutput { .. }
    ));
    assert!(matches!(
        t.step(TransactionEvent::OutputReady(Ok(String::from("in-abc.webm")))),
        TransactionAction::AllocateLog { .. }
    ));
    match t.step(TransactionEvent::LogReady(Ok(String::from("in-log")))) {
        TransactionAction::RunVideoPass1 { input, log, .. } => {
            assert_eq!(input, "in.mp4");
            assert_eq!(log, "in-log");
        }
        _ => panic!("the first pass runs"),
    }
    match t.step(TransactionEvent::ToolFinished(good_run())) {
        TransactionAction::RunVideoPass2 { marker, log, output, .. } => {
            assert_eq!(marker, "shrink-ray/1.2.0");
            assert_eq!(log, "in-log");
            assert_eq!(output, "in-abc.webm");
        }
        _ => panic!("the second pass runs"),
    }
    match t.step(TransactionEvent::ToolFinished(good_run())) {
        TransactionAction::DeletePassLog { log } => assert_eq!(log, "in-log"),
        _ => panic!("the pass log goes whatever happened"),
    }
    assert!(matches!(
        t.step(TransactionEvent::CleanupDone),
        TransactionAction::Measure { .. }
    ));
}

#[test]
fn video_pass1_failure_cleans_log_only() {
    let mut t = Transaction::new(String::from("in.mp4"), in_place(), false);
    let _ = t.step(TransactionEvent::Begin);
    let _ = t.step(TransactionEvent::InputStatus { exists: true, symlink: false });
    let _ = t.step(TransactionEvent::Identified(Ok(Some(String::from("video/mp4")))));
    let _ = t.step(TransactionEvent::ToolResolved(Ok(ffmpeg_tool())));
    let _ = t.step(TransactionEvent::Probed(Ok(None)));
    let _ = t.step(TransactionEvent::OutputReady(Ok(String::from("in-abc.webm"))));
    let _ = t.step(TransactionEvent::LogReady(Ok(String::from("in-log"))));
    let failed = Ok(SupervisorOutcome {
        exit: ExitInfo { success: false, code: Some(1) },
        cancelled: false,
    });
    match t.step(TransactionEvent::ToolFinished(failed)) {
        TransactionAction::DeletePassLog { log } => assert_eq!(log, "in-log"),
        _ => panic!("a failed first pass cleans its log"),
    }
    match t.step(TransactionEvent::CleanupDone) {
        TransactionAction::Finish(Err(Error::Invocation(ToolKind::Video, _))) => {}
        _ => panic!("the failure is then reported"),
    }
}

#[test]
fn video_cancel_in_pass2_cleans_log_then_output() {
    let mut t = Transaction::new(String::from("in.mp4"), in_place(), false);
    let _ = t.step(TransactionEvent::Begin);
    let _ = t.step(TransactionEvent::InputStatus { exists: true, symlink: false });
    let _ = t.step(TransactionEvent::Identified(Ok(Some(String::from("video/mp4")))));
    let _ = t.step(TransactionEvent::ToolResolved(Ok(ffmpeg_tool())));
    let _ = t.step(TransactionEvent::Probed(Ok(None)));
    let _ = t.step(TransactionEvent::OutputReady(Ok(String::from("in-abc.webm"))));
    let _ = t.step(TransactionEvent::LogReady(Ok(String::from("in-log"))));
    let _ = t.step(TransactionEvent::ToolFinished(good_run()));
    let cancelled = Ok(SupervisorOutcome {
        exit: ExitInfo { success: true, code: Some(0) },
        cancelled: true,
    });
    match t.step(TransactionEvent::ToolFinished(cancelled)) {
        TransactionAction::DeletePassLog { log } => assert_eq!(log, "in-log"),
        _ => panic!("the pass log goes first"),
    }
    match t.step(TransactionEvent::CleanupDone) {
        TransactionAction::DeleteIfExists { path } => assert_eq!(path, "in-abc.webm"),
        _ => panic!("the partial output goes next"),
    }
    match t.step(TransactionEvent::CleanupDone) {
        TransactionAction::Finish(Err(Error::Cancelled)) => {}
        _ => panic!("cancellation takes precedence"),
    }
}

#[test]
fn destination_wears_the_output_extension() {
    assert_eq!(destination_for("a/in.png", "a/in-xyz.jpg"), "a/in.jpg");
    assert_eq!(destination_for("in.mp4", "in-xyz.webm"), "in.webm");
    assert_eq!(destination_for("noext", "out.jpg"), "noext.jpg");
}
