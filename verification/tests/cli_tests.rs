use sqliters::cli::Args;

#[test]
fn arguments_hold_the_input_file() {
    let args = Args::from("data/app.sqlite".to_string());
    assert_eq!(args.input, "data/app.sqlite");
    let options = args.open_options();
    assert_eq!(options.filename, "data/app.sqlite");
    assert!(!options.create_if_missing);
    assert!(options.read_only);
}
