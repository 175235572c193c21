use project_command::AddonCommand;
use project_command::AuthenticateCommand;
use project_command::CommandGlobalOpts;
use project_command::CreateCommand;
use project_command::DeleteCommand;
use project_command::EnrollCommand;
use project_command::Execution;
use project_command::InfoCommand;
use project_command::ListCommand;
use project_command::ProjectCommand;
use project_command::ProjectSubcommand;
use project_command::ShowCommand;

fn opts() -> CommandGlobalOpts {
    CommandGlobalOpts::new(false, false, false)
}

#[test]
fn create_routes_to_create() {
    let args = CreateCommand {
        space_name: String::from("acme"),
        project_name: String::from("alpha"),
    };
    let cmd = ProjectCommand::new(ProjectSubcommand::Create(args.clone()));
    let r = cmd.run(opts());
    assert_eq!(r, Execution::Create(args, opts()));
}

#[test]
fn delete_routes_to_delete() {
    let args = DeleteCommand {
        space_name: String::from("acme"),
        project_name: String::from("alpha"),
    };
    let cmd = ProjectCommand::new(ProjectSubcommand::Delete(args.clone()));
    let r = cmd.run(opts());
    assert_eq!(r, Execution::Delete(args, opts()));
}

#[test]
fn list_routes_to_list() {
    let args = ListCommand { node: Some(String::from("n1")) };
    let cmd = ProjectCommand::new(ProjectSubcommand::List(args.clone()));
    let r = cmd.run(opts());
    assert_eq!(r, Execution::List(args, opts()));
}

#[test]
fn show_routes_to_show() {
    let args = ShowCommand { name: String::from("alpha") };
    let cmd = ProjectCommand::new(ProjectSubcommand::Show(args.clone()));
    let r = cmd.run(opts());
    assert_eq!(r, Execution::Show(args, opts()));
}

#[test]
fn information_routes_to_information() {
    let args = InfoCommand { name: String::from("alpha") };
    let cmd = ProjectCommand::new(ProjectSubcommand::Information(args.clone()));
    let r = cmd.run(opts());
    assert_eq!(r, Execution::Information(args, opts()));
}

#[test]
fn enroll_routes_to_enroll() {
    let args = EnrollCommand { token: Some(String::from("tok")) };
    let cmd = ProjectCommand::new(ProjectSubcommand::Enroll(args.clone()));
    let r = cmd.run(opts());
    assert_eq!(r, Execution::Enroll(args, opts()));
}

#[test]
fn addon_routes_to_addon() {
    let args = AddonCommand { project_name: String::from("alpha") };
    let cmd = ProjectCommand::new(ProjectSubcommand::Addon(args.clone()));
    let r = cmd.run(opts());
    assert_eq!(r, Execution::Addon(args, opts()));
}

#[test]
fn authenticate_routes_to_authenticate() {
    let args = AuthenticateCommand { token: String::from("tok") };
    let cmd = ProjectCommand::new(ProjectSubcommand::Authenticate(args.clone()));
    let r = cmd.run(opts());
    assert_eq!(r, Execution::Authenticate(args, opts()));
}

#[test]
fn dispatch_is_deterministic() {
    let args = ShowCommand { name: String::from("alpha") };
    let cmd1 = ProjectCommand::new(ProjectSubcommand::Show(args.clone()));
    let cmd2 = cmd1.clone();
    let r1 = cmd1.run(opts());
    let r2 = cmd2.run(opts());
    assert_eq!(r1, r2);
}

#[test]
fn list_scenario_exact_arguments_and_options() {
    let args = ListCommand { node: Some(String::from("relay-7")) };
    let options = CommandGlobalOpts::new(false, true, false);
    let cmd = ProjectCommand::new(ProjectSubcommand::List(args.clone()));
    let r = cmd.run(options);
    assert!(!options.verbose);
    assert_eq!(r, Execution::List(args, options));
    assert_eq!(r.options(), options);
}

#[test]
fn delete_scenario_never_routes_elsewhere() {
    let args = DeleteCommand {
        space_name: String::from("acme"),
        project_name: String::from("alpha"),
    };
    let cmd = ProjectCommand::new(ProjectSubcommand::Delete(args));
    let r = cmd.run(opts());
    assert!(matches!(r, Execution::Delete(..)));
    assert!(!matches!(r, Execution::Create(..)));
    assert!(!matches!(r, Execution::List(..)));
    assert!(!matches!(r, Execution::Show(..)));
    assert!(!matches!(r, Execution::Information(..)));
    assert!(!matches!(r, Execution::Enroll(..)));
    assert!(!matches!(r, Execution::Addon(..)));
    assert!(!matches!(r, Execution::Authenticate(..)));
}

#[test]
fn options_are_forwarded_unchanged() {
    let options = CommandGlobalOpts::new(true, false, true);
    let cmd = ProjectCommand::new(ProjectSubcommand::Enroll(EnrollCommand { token: None }));
    let r = cmd.run(options);
    assert_eq!(r.options(), options);
    assert!(r.options().verbose);
    assert!(!r.options().quiet);
    assert!(r.options().no_color);
}
