//! The rendered script texts: single probe, command, and batch probe.

use itunes_interface::bridge::Itunes;

#[test]
fn probe_script_substitutes_expression_once() {
    let itunes = Itunes::new();
    let script = itunes.compile_script("SoundVolume", true);
    assert_eq!(
        script,
        "$itunes = New-Object -ComObject iTunes.Application\nWrite-Output $itunes.SoundVolume\n"
    );
    assert_eq!(script.matches("SoundVolume").count(), 1);
}

#[test]
fn command_script_substitutes_expression_once() {
    let itunes = Itunes::new();
    let script = itunes.compile_script("pause()", false);
    assert_eq!(
        script,
        "$itunes = New-Object -ComObject iTunes.Application\n$itunes.pause()\n"
    );
    assert_eq!(script.matches("pause()").count(), 1);
}

#[test]
fn multi_probe_script_prints_each_expression_in_order() {
    let itunes = Itunes::new();
    let props = vec!["CurrentTrack.Name", "CurrentTrack.Artist"];
    let script = itunes.compile_large_script(&props);
    assert_eq!(
        script,
        "$itunes = New-Object -ComObject iTunes.Application\n\
         Write-Output $itunes.CurrentTrack.Name\n\
         Write-Output $itunes.CurrentTrack.Artist\n"
    );
    let lines: Vec<&str> = script.lines().collect();
    assert_eq!(lines.len(), 3);
    assert_eq!(lines[1], "Write-Output $itunes.CurrentTrack.Name");
    assert_eq!(lines[2], "Write-Output $itunes.CurrentTrack.Artist");
}

#[test]
fn multi_probe_script_with_no_expressions_has_no_print_statements() {
    let itunes = Itunes::new();
    let props: Vec<&str> = vec![];
    let script = itunes.compile_large_script(&props);
    assert_eq!(script, "$itunes = New-Object -ComObject iTunes.Application\n");
}

#[test]
fn rendering_is_deterministic() {
    let itunes = Itunes::new();
    let first = itunes.compile_script("PlayerPosition", true);
    let second = itunes.compile_script("PlayerPosition", true);
    assert_eq!(first, second);
}
