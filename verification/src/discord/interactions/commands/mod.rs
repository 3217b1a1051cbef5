//! Slash commands.
pub mod play;
pub mod refresh;
pub mod update_time;

use vstd::prelude::*;

verus! {

/// One option of a slash command: its name, and its value where the value is text.
#[derive(Debug)]
pub struct CommandOption {
    pub name: String,
    pub text: Option<String>,
}

/// The first option named `name`: `None` where there is none, else the text of
/// its value, `None` where the value is not text.
pub open spec fn option_text(options: Seq<CommandOption>, name: Seq<char>) -> Option<Option<Seq<char>>>
    decreases options.len(),
{
    if options.len() == 0 {
        None
    } else if options[0].name@ == name {
        Some(
            match options[0].text {
                Some(t) => Some(t@),
                None => None,
            },
        )
    } else {
        option_text(options.drop_first(), name)
    }
}

/// The first option named `name`, and the text of its value.
pub fn find_option_text(options: &Vec<CommandOption>, name: &str) -> (r: Option<Option<String>>)
    ensures
        match option_text(options@, name@) {
            None => r is None,
            Some(None) => r matches Some(None),
            Some(Some(t)) => r matches Some(Some(x)) && x@ == t,
        },
{
    let mut i: usize = 0;
    let want = name.to_string();
    assert(options@.subrange(0, options@.len() as int) =~= options@);
    while i < options.len()
        invariant
            i <= options@.len(),
            want@ == name@,
            option_text(options@, name@) == option_text(options@.subrange(i as int, options@.len() as int), name@),
        decreases options@.len() - i,
    {
        assert(options@.subrange(i as int, options@.len() as int).drop_first() =~= options@.subrange(
            i + 1,
            options@.len() as int,
        ));
        if options[i].name == want {
            return Some(
                match &options[i].text {
                    Some(t) => Some(t.clone()),
                    None => None,
                },
            );
        }
        i = i + 1;
    }
    None
}

} // verus!
