use ani_cli::cli::{Commands, CLI};
use std::path::PathBuf;

#[test]
fn commands_carry_their_options() {
    let cli = CLI { command: Commands::Update { full: true, verbose: false } };
    assert_eq!(cli.command, Commands::Update { full: true, verbose: false });
    assert_ne!(cli.command, Commands::Update { full: false, verbose: false });
    let info = Commands::Info { id: 20, details: true };
    assert!(matches!(info, Commands::Info { id: 20, details: true }));
}

#[test]
fn commands_are_told_apart() {
    let all = [
        Commands::List {},
        Commands::Update { full: false, verbose: false },
        Commands::Scan {},
        Commands::Search { keyword: String::from("kaguya"), local: true },
        Commands::Info { id: 1, details: false },
        Commands::Export { path: PathBuf::from("/tmp/out.json") },
        Commands::SetConfig {},
        Commands::Add { id: vec![1, 2], name: vec![String::from("a")] },
    ];
    for (i, a) in all.iter().enumerate() {
        for (j, b) in all.iter().enumerate() {
            assert_eq!(a == b, i == j);
        }
    }
}
