use bindgen_driver::error::Error;
use bindgen_driver::response::{
    expand_response_files, response_file_path, tokenize, Expansion, FileOutcome,
};

fn list(words: &[&str]) -> Vec<String> {
    words.iter().map(|word| word.to_string()).collect()
}

/// Runs an expansion to its end, reading each file from `files`; a path that
/// is not among them cannot be read. Also gives the paths asked for, in order.
fn run(args: &[&str], files: &[(&str, &str)]) -> (Result<Vec<String>, Error>, Vec<String>) {
    let mut asked = Vec::new();
    let mut step = expand_response_files(list(args));
    loop {
        match step {
            Expansion::Done(result) => return (result, asked),
            Expansion::Read { path, pending } => {
                let read = match files.iter().find(|(name, _)| *name == path) {
                    Some((_, contents)) => Ok(contents.to_string()),
                    None => Err(String::from("No such file or directory (os error 2)")),
                };
                asked.push(path);
                step = pending.resume(read);
            }
        }
    }
}

#[test]
fn path_of_a_response_file_argument() {
    assert_eq!(response_file_path("@args.rsp"), Some(String::from("args.rsp")));
    assert_eq!(response_file_path("@dir/a b.txt"), Some(String::from("dir/a b.txt")));
}

#[test]
fn path_of_an_ordinary_argument() {
    assert_eq!(response_file_path("-Iinclude"), None);
    assert_eq!(response_file_path("args.rsp"), None);
    assert_eq!(response_file_path("-D@x"), None);
    assert_eq!(response_file_path(" @x"), None);
    assert_eq!(response_file_path(""), None);
}

#[test]
fn path_of_a_bare_at_sign_is_empty() {
    assert_eq!(response_file_path("@"), Some(String::new()));
}

#[test]
fn path_keeps_further_at_signs() {
    assert_eq!(response_file_path("@@x"), Some(String::from("@x")));
}

#[test]
fn path_with_characters_of_several_bytes() {
    assert_eq!(response_file_path("@é/ü.rsp"), Some(String::from("é/ü.rsp")));
    assert_eq!(response_file_path("é@x"), None);
}

#[test]
fn expansion_without_response_files_is_the_identity() {
    let args = ["-x", "c++", "-Iinclude", "-DNAME=a b", "", "--", "a@b"];
    let (result, asked) = run(&args, &[]);
    assert_eq!(result, Ok(list(&args)));
    assert!(asked.is_empty());
}

#[test]
fn expansion_of_the_empty_list_is_empty() {
    let (result, asked) = run(&[], &[]);
    assert_eq!(result, Ok(Vec::new()));
    assert!(asked.is_empty());
}

#[test]
fn plain_list_is_done_at_the_first_step() {
    match expand_response_files(list(&["-a", "-b"])) {
        Expansion::Done(result) => assert_eq!(result, Ok(list(&["-a", "-b"]))),
        Expansion::Read { .. } => panic!("no file is named"),
    }
}

#[test]
fn response_file_is_replaced_by_its_words_in_place() {
    let (result, asked) = run(&["-x", "@f", "-y"], &[("f", "a b \"c d\"")]);
    assert_eq!(result, Ok(list(&["-x", "a", "b", "c d", "-y"])));
    assert_eq!(asked, list(&["f"]));
}

#[test]
fn response_file_alone() {
    let (result, _) = run(&["@f"], &[("f", "a b \"c d\"")]);
    assert_eq!(result, Ok(list(&["a", "b", "c d"])));
}

#[test]
fn several_response_files_keep_their_order() {
    let files = [("one", "-a -b"), ("two", "-c"), ("three", "'-d e'\n-f")];
    let (result, asked) = run(&["@one", "mid", "@two", "@three", "end"], &files);
    assert_eq!(result, Ok(list(&["-a", "-b", "mid", "-c", "-d e", "-f", "end"])));
    assert_eq!(asked, list(&["one", "two", "three"]));
}

#[test]
fn the_same_file_may_be_named_twice() {
    let (result, asked) = run(&["@f", "@f"], &[("f", "x y")]);
    assert_eq!(result, Ok(list(&["x", "y", "x", "y"])));
    assert_eq!(asked, list(&["f", "f"]));
}

#[test]
fn empty_response_file_gives_no_words() {
    let (result, _) = run(&["-x", "@f", "-y"], &[("f", "")]);
    assert_eq!(result, Ok(list(&["-x", "-y"])));
    let (result, _) = run(&["@f"], &[("f", "  \n\t ")]);
    assert_eq!(result, Ok(Vec::new()));
}

#[test]
fn words_of_a_file_are_not_expanded_again() {
    let (result, asked) = run(&["@outer"], &[("outer", "-a @inner"), ("inner", "-b")]);
    assert_eq!(result, Ok(list(&["-a", "@inner"])));
    assert_eq!(asked, list(&["outer"]));
}

#[test]
fn missing_file_is_a_read_error() {
    let (result, asked) = run(&["-x", "@gone", "-y"], &[]);
    assert_eq!(
        result,
        Err(Error::Read {
            path: String::from("gone"),
            cause: String::from("No such file or directory (os error 2)"),
        })
    );
    assert_eq!(asked, list(&["gone"]));
}

#[test]
fn unterminated_quote_is_a_syntax_error() {
    let (result, _) = run(&["@f"], &[("f", "a \"b c")]);
    assert_eq!(result, Err(Error::Syntax { path: String::from("f") }));
    let (result, _) = run(&["@f"], &[("f", "it's")]);
    assert_eq!(result, Err(Error::Syntax { path: String::from("f") }));
}

#[test]
fn trailing_backslash_is_a_syntax_error() {
    let (result, _) = run(&["@dir/f"], &[("dir/f", "a b\\")]);
    assert_eq!(result, Err(Error::Syntax { path: String::from("dir/f") }));
}

#[test]
fn first_failure_from_the_left_ends_the_expansion() {
    let files = [("good", "-a"), ("bad", "'")];
    let (result, asked) = run(&["@good", "@bad", "@gone"], &files);
    assert_eq!(result, Err(Error::Syntax { path: String::from("bad") }));
    assert_eq!(asked, list(&["good", "bad"]));
    let (result, asked) = run(&["@gone", "@bad"], &files);
    assert!(matches!(result, Err(Error::Read { ref path, .. }) if path == "gone"));
    assert_eq!(asked, list(&["gone"]));
}

#[test]
fn bare_at_sign_names_the_empty_path() {
    let (result, asked) = run(&["@"], &[]);
    assert!(matches!(result, Err(Error::Read { ref path, .. }) if path.is_empty()));
    assert_eq!(asked, list(&[""]));
}

#[test]
fn first_step_stops_at_the_first_response_file() {
    match expand_response_files(list(&["-a", "@one", "-b", "@two"])) {
        Expansion::Read { path, pending } => {
            assert_eq!(path, "one");
            match pending.advance(FileOutcome::Words(list(&["1", "2"]))) {
                Expansion::Read { path, pending } => {
                    assert_eq!(path, "two");
                    match pending.advance(FileOutcome::Words(Vec::new())) {
                        Expansion::Done(result) => {
                            assert_eq!(result, Ok(list(&["-a", "1", "2", "-b"])))
                        }
                        Expansion::Read { .. } => panic!("no file is left"),
                    }
                }
                Expansion::Done(_) => panic!("a second file is named"),
            }
        }
        Expansion::Done(_) => panic!("a file is named"),
    }
}

#[test]
fn advance_with_an_unreadable_file() {
    match expand_response_files(list(&["@f", "-z"])) {
        Expansion::Read { pending, .. } => {
            match pending.advance(FileOutcome::Unreadable(String::from("denied"))) {
                Expansion::Done(result) => assert_eq!(
                    result,
                    Err(Error::Read { path: String::from("f"), cause: String::from("denied") })
                ),
                Expansion::Read { .. } => panic!("the expansion is over"),
            }
        }
        Expansion::Done(_) => panic!("a file is named"),
    }
}

#[test]
fn advance_with_a_malformed_file() {
    match expand_response_files(list(&["-z", "@f"])) {
        Expansion::Read { pending, .. } => match pending.advance(FileOutcome::Malformed) {
            Expansion::Done(result) => {
                assert_eq!(result, Err(Error::Syntax { path: String::from("f") }))
            }
            Expansion::Read { .. } => panic!("the expansion is over"),
        },
        Expansion::Done(_) => panic!("a file is named"),
    }
}

#[test]
fn tokenize_splits_by_shell_rules() {
    assert_eq!(
        tokenize(Ok(String::from("a b \"c d\""))),
        FileOutcome::Words(list(&["a", "b", "c d"]))
    );
    assert_eq!(
        tokenize(Ok(String::from("-DX='1 2'  -I\tinc\\ lude\n# note\n-o out"))),
        FileOutcome::Words(list(&["-DX=1 2", "-I", "inc lude", "-o", "out"]))
    );
    assert_eq!(tokenize(Ok(String::new())), FileOutcome::Words(Vec::new()));
}

#[test]
fn tokenize_rejects_open_quotes() {
    assert_eq!(tokenize(Ok(String::from("\"open"))), FileOutcome::Malformed);
    assert_eq!(tokenize(Ok(String::from("'open"))), FileOutcome::Malformed);
    assert_eq!(tokenize(Ok(String::from("open\\"))), FileOutcome::Malformed);
}

#[test]
fn tokenize_passes_a_failed_read_on() {
    assert_eq!(
        tokenize(Err(String::from("Is a directory (os error 21)"))),
        FileOutcome::Unreadable(String::from("Is a directory (os error 21)"))
    );
}
