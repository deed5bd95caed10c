use slink::cli::{RsyncDirection, SlinkCommand};
use std::path::PathBuf;

#[test]
fn commands_carry_their_parameters() {
    let chosen = SlinkCommand::Use { host: String::from("example.org") };
    assert_eq!(chosen, SlinkCommand::Use { host: String::from("example.org") });
    assert_ne!(chosen, SlinkCommand::Go);
    let run = SlinkCommand::Run { command: String::from("uptime") };
    assert_ne!(run, SlinkCommand::Run { command: String::from("ls") });
    let up = SlinkCommand::Upload { path: PathBuf::from("/a/b") };
    let down = SlinkCommand::Download { path: PathBuf::from("/a/b") };
    assert_ne!(up, down);
    assert_eq!(format!("{:?}", SlinkCommand::Go), "Go");
}

#[test]
fn directories_go_up_or_down() {
    assert_ne!(RsyncDirection::Up, RsyncDirection::Down);
    let copy = RsyncDirection::Up;
    assert_eq!(copy, RsyncDirection::Up);
    assert_eq!(
        SlinkCommand::Rsync { direction: RsyncDirection::Down },
        SlinkCommand::Rsync { direction: RsyncDirection::Down }
    );
}
