use simon::launch::build_launch;
use simon::settings::CommandSetting;

fn command(program: &str, args: &[&str]) -> CommandSetting {
    CommandSetting {
        program: String::from(program),
        args: args.iter().map(|a| String::from(*a)).collect(),
    }
}

#[test]
fn the_placeholder_is_replaced_by_the_selected_path() {
    let req = build_launch(&command("echo", &["{0}"]), &String::from("/media/a.mp4"));
    assert_eq!(req.program, "echo");
    assert_eq!(req.args, vec![String::from("/media/a.mp4")]);
}

#[test]
fn every_occurrence_of_the_placeholder_is_replaced() {
    let req = build_launch(
        &command("player", &["--input", "{0}", "--log", "{0}"]),
        &String::from("/m/x.mkv"),
    );
    assert_eq!(
        req.args,
        vec![
            String::from("--input"),
            String::from("/m/x.mkv"),
            String::from("--log"),
            String::from("/m/x.mkv"),
        ]
    );
}

#[test]
fn other_arguments_pass_through_unchanged() {
    let req = build_launch(
        &command("player", &["--fullscreen", "-v"]),
        &String::from("/m/x.mkv"),
    );
    assert_eq!(req.args, vec![String::from("--fullscreen"), String::from("-v")]);
}

#[test]
fn the_placeholder_must_stand_alone_to_be_replaced() {
    let req = build_launch(&command("player", &["file={0}"]), &String::from("/m/x.mkv"));
    assert_eq!(req.args, vec![String::from("file={0}")]);
}

#[test]
fn an_empty_argument_list_stays_empty() {
    let req = build_launch(&command("player", &[]), &String::from("/m/x.mkv"));
    assert!(req.args.is_empty());
}
