//! End-to-end runs of the orchestrator against a pre-queued backend
//! double: every outcome is delivered through the frontend controller
//! before the run starts, and the commands the orchestrator issued are
//! drained from the backend's receiver afterwards.

use windiff_types::frontend::ResymFrontendController;
use windiff_types::orchestrator::WinDiffApp;
use windiff_types::protocol::{Command, ExtractError, Outcome, ReconstructionFlavor};

fn reconstruct_cmd(type_id: u32) -> Command {
    Command::ReconstructTypeByIndex {
        slot: 0,
        type_id,
        flavor: ReconstructionFlavor::Microsoft,
        print_header: false,
        reconstruct_dependencies: false,
        print_access_specifiers: false,
    }
}

fn load_cmd(path: &str) -> Command {
    Command::LoadPdb {
        slot: 0,
        path: path.to_string(),
    }
}

fn filter_cmd() -> Command {
    Command::UpdateTypeFilter {
        slot: 0,
        search: String::new(),
        case_sensitive: false,
        use_regex: false,
    }
}

#[test]
fn three_types_middle_reconstruction_fails() {
    let (app, rx_cmd) = WinDiffApp::new();
    let c = &app.frontend_controller;
    c.send_command(Outcome::LoadPdbResult(Ok(0))).unwrap();
    c.send_command(Outcome::FilteredTypes(vec![
        ("A".to_string(), 1),
        ("B".to_string(), 2),
        ("C".to_string(), 3),
    ]))
    .unwrap();
    c.send_command(Outcome::ReconstructTypeResult(Ok("declA".to_string())))
        .unwrap();
    c.send_command(Outcome::ReconstructTypeResult(Err(
        "unsupported kind".to_string()
    )))
    .unwrap();
    c.send_command(Outcome::ReconstructTypeResult(Ok("declC".to_string())))
        .unwrap();

    let (res, _) = app.list_types("types.pdb".to_string());
    let v = res.unwrap();
    // B is dropped silently; A and C keep their enumeration order.
    assert_eq!(
        v,
        vec![
            ("A".to_string(), "declA".to_string()),
            ("C".to_string(), "declC".to_string()),
        ]
    );
    // fewer survivors than enumerated entries, because one failed
    assert!(v.len() < 3);

    // Commands for A, B and C were all issued, in order: a per-item
    // failure does not skip the remaining items.
    let cmds: Vec<Command> = rx_cmd.try_iter().collect();
    assert_eq!(cmds.len(), 5);
    assert_eq!(cmds[0], load_cmd("types.pdb"));
    assert_eq!(cmds[1], filter_cmd());
    assert_eq!(cmds[2], reconstruct_cmd(1));
    assert_eq!(cmds[3], reconstruct_cmd(2));
    assert_eq!(cmds[4], reconstruct_cmd(3));
}

#[test]
fn all_types_reconstruct_result_is_full_length() {
    let (app, rx_cmd) = WinDiffApp::new();
    let c = &app.frontend_controller;
    c.send_command(Outcome::LoadPdbResult(Ok(0))).unwrap();
    c.send_command(Outcome::FilteredTypes(vec![
        ("First".to_string(), 10),
        ("Second".to_string(), 20),
    ]))
    .unwrap();
    c.send_command(Outcome::ReconstructTypeResult(Ok("struct First;".to_string())))
        .unwrap();
    c.send_command(Outcome::ReconstructTypeResult(Ok("struct Second;".to_string())))
        .unwrap();

    let (res, _) = app.list_types("types.pdb".to_string());
    let v = res.unwrap();
    // no failure: exactly one result entry per enumerated entry
    assert_eq!(
        v,
        vec![
            ("First".to_string(), "struct First;".to_string()),
            ("Second".to_string(), "struct Second;".to_string()),
        ]
    );
    assert_eq!(rx_cmd.try_iter().count(), 4);
}

#[test]
fn interleaved_failures_never_reorder_survivors() {
    let (app, rx_cmd) = WinDiffApp::new();
    let c = &app.frontend_controller;
    c.send_command(Outcome::LoadPdbResult(Ok(0))).unwrap();
    c.send_command(Outcome::FilteredTypes(vec![
        ("W".to_string(), 7),
        ("X".to_string(), 8),
        ("Y".to_string(), 9),
        ("Z".to_string(), 11),
    ]))
    .unwrap();
    c.send_command(Outcome::ReconstructTypeResult(Err("e1".to_string())))
        .unwrap();
    c.send_command(Outcome::ReconstructTypeResult(Ok("declX".to_string())))
        .unwrap();
    c.send_command(Outcome::ReconstructTypeResult(Err("e2".to_string())))
        .unwrap();
    c.send_command(Outcome::ReconstructTypeResult(Ok("declZ".to_string())))
        .unwrap();

    let (res, _) = app.list_types("types.pdb".to_string());
    // X before Z, exactly as enumerated; W and Y silently dropped
    assert_eq!(
        res.unwrap(),
        vec![
            ("X".to_string(), "declX".to_string()),
            ("Z".to_string(), "declZ".to_string()),
        ]
    );
    assert_eq!(rx_cmd.try_iter().count(), 6);
}

#[test]
fn empty_pdb_yields_empty_result_and_no_reconstruct_commands() {
    let (app, rx_cmd) = WinDiffApp::new();
    let c = &app.frontend_controller;
    c.send_command(Outcome::LoadPdbResult(Ok(0))).unwrap();
    c.send_command(Outcome::FilteredTypes(vec![])).unwrap();

    let (res, _) = app.list_types("empty.pdb".to_string());
    assert_eq!(res.unwrap(), Vec::<(String, String)>::new());

    let cmds: Vec<Command> = rx_cmd.try_iter().collect();
    assert_eq!(cmds.len(), 2);
    assert_eq!(cmds[0], load_cmd("empty.pdb"));
    assert_eq!(cmds[1], filter_cmd());
}

#[test]
fn load_failure_short_circuits() {
    let (app, rx_cmd) = WinDiffApp::new();
    let c = &app.frontend_controller;
    c.send_command(Outcome::LoadPdbResult(Err("malformed stream".to_string())))
        .unwrap();

    let (res, _) = app.list_types("broken.pdb".to_string());
    assert_eq!(
        res,
        Err(ExtractError::PdbLoadError("malformed stream".to_string()))
    );

    // zero UpdateTypeFilter and zero ReconstructTypeByIndex commands
    let cmds: Vec<Command> = rx_cmd.try_iter().collect();
    assert_eq!(cmds.len(), 1);
    assert_eq!(cmds[0], load_cmd("broken.pdb"));
}

#[test]
fn wrong_shape_for_load_is_protocol_violation() {
    let (app, rx_cmd) = WinDiffApp::new();
    let c = &app.frontend_controller;
    // the backend answers LoadPdb with a reconstruction-shaped outcome
    c.send_command(Outcome::ReconstructTypeResult(Ok("struct X;".to_string())))
        .unwrap();

    let (res, _) = app.list_types("x.pdb".to_string());
    assert_eq!(res, Err(ExtractError::ProtocolViolation));
    assert_eq!(rx_cmd.try_iter().count(), 1);
}

#[test]
fn wrong_shape_for_filter_is_protocol_violation() {
    let (app, rx_cmd) = WinDiffApp::new();
    let c = &app.frontend_controller;
    c.send_command(Outcome::LoadPdbResult(Ok(0))).unwrap();
    c.send_command(Outcome::LoadPdbResult(Ok(0))).unwrap();

    let (res, _) = app.list_types("x.pdb".to_string());
    assert_eq!(res, Err(ExtractError::ProtocolViolation));
    assert_eq!(rx_cmd.try_iter().count(), 2);
}

#[test]
fn wrong_shape_during_reconstruction_is_fatal() {
    let (app, rx_cmd) = WinDiffApp::new();
    let c = &app.frontend_controller;
    c.send_command(Outcome::LoadPdbResult(Ok(0))).unwrap();
    c.send_command(Outcome::FilteredTypes(vec![
        ("A".to_string(), 1),
        ("B".to_string(), 2),
    ]))
    .unwrap();
    c.send_command(Outcome::ReconstructTypeResult(Ok("declA".to_string())))
        .unwrap();
    // the answer for B has the wrong shape: fatal, unlike a per-item error
    c.send_command(Outcome::FilteredTypes(vec![])).unwrap();

    let (res, _) = app.list_types("x.pdb".to_string());
    assert_eq!(res, Err(ExtractError::ProtocolViolation));
    assert_eq!(rx_cmd.try_iter().count(), 4);
}

#[test]
fn broken_command_channel_is_channel_error() {
    let (app, rx_cmd) = WinDiffApp::new();
    drop(rx_cmd);
    let (res, _) = app.list_types("x.pdb".to_string());
    // the error carries the transport's description of the cause
    match res {
        Err(ExtractError::ChannelError(cause)) => assert!(!cause.is_empty()),
        other => panic!("expected a channel error, got {:?}", other),
    }
}

#[test]
fn controller_surfaces_a_broken_link_to_the_backend() {
    let (tx_dead, rx_dead) = crossbeam_channel::unbounded::<Outcome>();
    drop(rx_dead);
    let (_tx_alive, rx_alive) = crossbeam_channel::unbounded::<Outcome>();
    let controller = ResymFrontendController::new(tx_dead, rx_alive);
    let r = controller.send_command(Outcome::LoadPdbResult(Ok(0)));
    match r {
        Err(ExtractError::ChannelError(cause)) => assert!(!cause.is_empty()),
        other => panic!("expected a channel error, got {:?}", other),
    }
}

#[test]
fn controller_delivers_in_fifo_order() {
    let (tx, rx) = crossbeam_channel::unbounded::<Outcome>();
    let controller = ResymFrontendController::new(tx, rx);
    controller
        .send_command(Outcome::LoadPdbResult(Ok(0)))
        .unwrap();
    controller
        .send_command(Outcome::ReconstructTypeResult(Ok("d".to_string())))
        .unwrap();
    assert_eq!(
        controller.rx_ui.recv().unwrap(),
        Outcome::LoadPdbResult(Ok(0))
    );
    assert_eq!(
        controller.rx_ui.recv().unwrap(),
        Outcome::ReconstructTypeResult(Ok("d".to_string()))
    );
}
