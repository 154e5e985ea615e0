use valman::assets::{asset_path, content_type};
use valman::catalog::{backup_rows, recent_backups, sort_by_creation, BackupFile, RECENT_BACKUPS};
use valman::control::{
    after_extraction, after_restart, restore_step, ActionError, Control, RestoreEvent, RestoreStep,
};
use valman::docker::ContainerInfo;
use valman::page::{build_render_model, render_template, restart_button, version_with_commit};
use valman::text::datetime_cell_text;
use valman::valve::ValveInformation;

fn file(name: &str, created: i64, size: u64) -> BackupFile {
    BackupFile { name: name.to_string(), created, size }
}

fn names(fs: &[BackupFile]) -> Vec<String> {
    fs.iter().map(|f| f.name.clone()).collect()
}

#[test]
fn catalog_sorted_oldest_first() {
    let fs = vec![file("c", 30, 1), file("a", 10, 1), file("b", 20, 1)];
    let sorted = sort_by_creation(fs);
    assert_eq!(names(&sorted), vec!["a", "b", "c"]);
}

#[test]
fn catalog_sort_is_stable_and_repeatable() {
    let fs = vec![file("x", 5, 1), file("y", 1, 1), file("z", 5, 1)];
    let once = sort_by_creation(fs);
    assert_eq!(names(&once), vec!["y", "x", "z"]);
    let twice = sort_by_creation(once);
    assert_eq!(names(&twice), vec!["y", "x", "z"]);
}

#[test]
fn recent_view_keeps_last_five() {
    let fs: Vec<BackupFile> = (0..7).map(|i| file(&format!("b{}", i), i, 1)).collect();
    let recent = recent_backups(sort_by_creation(fs));
    assert_eq!(recent.len(), RECENT_BACKUPS);
    assert_eq!(names(&recent), vec!["b2", "b3", "b4", "b5", "b6"]);
}

#[test]
fn recent_view_small_catalogs() {
    let fs = vec![file("b", 2, 1), file("a", 1, 1)];
    assert_eq!(names(&recent_backups(sort_by_creation(fs))), vec!["a", "b"]);
    assert!(recent_backups(Vec::new()).is_empty());
    let fs: Vec<BackupFile> = (0..5).map(|i| file(&format!("b{}", i), i, 1)).collect();
    assert_eq!(recent_backups(fs).len(), 5);
}

#[test]
fn datetime_text_of_epoch() {
    assert_eq!(datetime_cell_text(0), "1970-01-01 00:00:00");
    assert_eq!(datetime_cell_text(86_399), "1970-01-01 23:59:59");
    assert_eq!(datetime_cell_text(i64::MAX), "n/a");
}

#[test]
fn backup_row_text() {
    let rows = backup_rows(&vec![file("w.tgz", 0, 1_000_000)]);
    assert_eq!(
        rows,
        "<tr><td><a href=\"/backups/w.tgz\">w.tgz</a></td><td>1970-01-01 00:00:00</td><td>1 MB</td><td style=\"text-align: end;\"><a href=\"/backups/restore/w.tgz\" class=\"restore-btn\" role=\"button\" style=\"padding: 10px; width: 100%;\">Restore</a></td></tr>"
    );
    assert_eq!(backup_rows(&Vec::new()), "");
}

#[test]
fn failed_extraction_never_restarts() {
    let mut restarts = 0;
    match after_extraction(Err("corrupt archive".to_string())) {
        Control::Restart => restarts += 1,
        Control::Fail(ActionError::Backup(m)) => assert_eq!(m, "corrupt archive"),
        _ => panic!("unexpected control"),
    }
    assert_eq!(restarts, 0);
}

#[test]
fn restart_failure_is_distinguishable() {
    assert!(matches!(after_extraction(Ok(())), Control::Restart));
    match after_restart(Err("timeout".to_string())) {
        Control::Fail(e) => {
            assert!(matches!(e, ActionError::Restart(_)));
            assert_eq!(e.message(), "Failed restarting container: timeout");
        }
        _ => panic!("expected failure"),
    }
    assert!(matches!(after_restart(Ok(())), Control::Stamp));
    assert_eq!(
        ActionError::Backup("bad".into()).message(),
        "Failed restoring backup: bad"
    );
}

#[test]
fn restore_sequence_steps() {
    let (s, c) = restore_step(RestoreStep::Extracting, RestoreEvent::Extracted(Ok(())));
    assert!(matches!(s, RestoreStep::Restarting));
    assert!(matches!(c, Some(Control::Restart)));
    let (s, c) = restore_step(s, RestoreEvent::Restarted(Ok(())));
    assert!(matches!(s, RestoreStep::Done));
    assert!(matches!(c, Some(Control::Stamp)));
    let (s, c) = restore_step(RestoreStep::Extracting, RestoreEvent::Extracted(Err("e".into())));
    assert!(matches!(s, RestoreStep::Failed));
    assert!(matches!(c, Some(Control::Fail(ActionError::Backup(_)))));
    let (_, c) = restore_step(s, RestoreEvent::Restarted(Ok(())));
    assert!(c.is_none());
    let (s, c) = restore_step(RestoreStep::Restarting, RestoreEvent::Restarted(Err("r".into())));
    assert!(matches!(s, RestoreStep::Failed));
    assert!(matches!(c, Some(Control::Fail(ActionError::Restart(_)))));
}

#[test]
fn template_placeholders_replaced() {
    let pairs = vec![
        ("%a%".to_string(), "1".to_string()),
        ("%b%".to_string(), "two".to_string()),
    ];
    assert_eq!(render_template("<%a%|%b%|%a%>", &pairs), "<1|two|1>");
    assert_eq!(render_template("plain", &Vec::new()), "plain");
}

#[test]
fn version_text() {
    assert_eq!(version_with_commit("0.1.0", "abc1234"), "0.1.0-abc1234");
}

#[test]
fn restart_control_text() {
    assert_eq!(
        restart_button(None, 60, 0),
        "<a id=\"restart-btn\" href=\"/restart\" role=\"button\" style=\"height: 64px;\">Restart</a>"
    );
    assert_eq!(
        restart_button(Some(100), 60, 130),
        "<small style=\"line-height: 64px;\">Last restart was less than 60 seconds ago, please wait...</small>"
    );
}

#[test]
fn page_with_container_down() {
    let valve = Some(ValveInformation::from_info("srv".into(), Some("1.2".into()), 4, 10));
    let m = build_render_model("v".into(), &None, &valve, None, 60, 0, Vec::new(), 12);
    assert_eq!(m.container_status, "n/a");
    assert_eq!(m.container_uptime, "n/a");
    assert_eq!(m.server_logs, "n/a");
    assert_eq!(m.container_status_img, "cross");
    assert_eq!(m.server_version, "1.2");
    assert_eq!(m.player_count, "4");
    assert_eq!(m.last_restart_time, "n/a");
    assert_eq!(m.render_time, "12");
    assert_eq!(m.backups, "");
}

#[test]
fn page_with_game_down() {
    let c = Some(ContainerInfo::new("id".into(), "running".into(), "Up 2 hours".into(), "log".into()));
    let fs = vec![file("b", 2, 1), file("a", 1, 1)];
    let m = build_render_model("v".into(), &c, &None, Some(0), 60, 10, sort_by_creation(fs), 0);
    assert_eq!(m.container_status, "running");
    assert_eq!(m.container_uptime, "Up 2 hours");
    assert_eq!(m.server_logs, "log");
    assert_eq!(m.container_status_img, "ok");
    assert_eq!(m.server_version, "n/a");
    assert_eq!(m.player_count, "n/a");
    assert_eq!(m.last_restart_time, "1970-01-01 00:00:00");
    assert!(m.backups.starts_with("<tr><td><a href=\"/backups/a\">"));
    assert!(m.restart_btn.starts_with("<small"));
    let page = m.render("[%container_status%][%server_version%][%version%]");
    assert_eq!(page, "[running][n/a][v]");
}

#[test]
fn asset_paths_and_types() {
    assert_eq!(asset_path("//css/main.css"), "css/main.css");
    assert_eq!(asset_path("img/ok.png"), "img/ok.png");
    assert_eq!(asset_path("/"), "");
    assert_eq!(content_type("css/main.css"), "text/css");
    assert_eq!(content_type("w.tar.gz"), "application/gzip");
    assert_eq!(content_type("noextension"), "text/plain");
}
