use bing_wallpaper::autostart::{
    advance_autostart, begin, run_key, value_name, AutostartReply, AutostartStep,
};
use bing_wallpaper::error::TaskError;

fn exe() -> String {
    "C:\\Program Files\\wall\\wall.exe".to_string()
}

#[test]
fn autostart_names_the_run_key_and_the_value() {
    assert_eq!(run_key(), "Software\\Microsoft\\Windows\\CurrentVersion\\Run");
    assert_eq!(value_name(), "BingWallpaper");
}

#[test]
fn autostart_writes_the_executable_path() {
    let mut step = begin();
    assert_eq!(step, AutostartStep::FindExecutable);
    step = advance_autostart(step, AutostartReply::Executable { path: Some(exe()) });
    assert_eq!(step, AutostartStep::OpenRunKey { executable: exe() });
    step = advance_autostart(step, AutostartReply::KeyOpened { opened: true });
    assert_eq!(step, AutostartStep::WriteValue { executable: exe() });
    step = advance_autostart(step, AutostartReply::ValueWritten { written: true });
    assert_eq!(step, AutostartStep::Done { failure: None });
}

#[test]
fn autostart_failures() {
    assert_eq!(
        advance_autostart(begin(), AutostartReply::Executable { path: None }),
        AutostartStep::Done { failure: Some(TaskError::SelfPath) }
    );
    assert_eq!(
        advance_autostart(
            AutostartStep::OpenRunKey { executable: exe() },
            AutostartReply::KeyOpened { opened: false }
        ),
        AutostartStep::Done { failure: Some(TaskError::RegistryOpen) }
    );
    assert_eq!(
        advance_autostart(
            AutostartStep::WriteValue { executable: exe() },
            AutostartReply::ValueWritten { written: false }
        ),
        AutostartStep::Done { failure: Some(TaskError::RegistryWrite) }
    );
}

#[test]
fn autostart_ignores_a_reply_to_another_step() {
    assert_eq!(
        advance_autostart(begin(), AutostartReply::KeyOpened { opened: true }),
        AutostartStep::FindExecutable
    );
    assert_eq!(
        advance_autostart(
            AutostartStep::OpenRunKey { executable: exe() },
            AutostartReply::ValueWritten { written: true }
        ),
        AutostartStep::OpenRunKey { executable: exe() }
    );
    assert_eq!(
        advance_autostart(
            AutostartStep::WriteValue { executable: exe() },
            AutostartReply::Executable { path: None }
        ),
        AutostartStep::WriteValue { executable: exe() }
    );
    assert_eq!(
        advance_autostart(
            AutostartStep::Done { failure: None },
            AutostartReply::ValueWritten { written: false }
        ),
        AutostartStep::Done { failure: None }
    );
}
