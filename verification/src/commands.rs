//! Commands typed on the console: `give <item> [count]` and `tp <x> <y>`.
use vstd::prelude::*;
use crate::items::list::{item_object_from_name, ItemObject};
use crate::text::{lemma_split_len_pos, owned, parse_u16, parse_u16_spec, split_on, split_spec, text_eq};

verus! {

/// A command line, as read from the console.
pub struct CommandEvent {
    pub msg: String,
}

/// What a well-formed command asks for.
pub enum CommandAction {
    /// Put a stack of `item` (of `count` + 1 items) into the player's
    /// inventory.
    Give { item: ItemObject, count: u8 },
    /// Move the player; the arguments are the texts after `tp`, which are
    /// to be read as the two coordinates.
    Teleport { args: Vec<String> },
}

/// Why a command was refused.
pub enum CommandError {
    PlayerNotFound,
    ItemNotFound,
    CountNotANumber,
    CommandNotFound(String),
}

/// A command's action with its texts seen as character sequences.
pub enum CommandView {
    Give(ItemObject, u8),
    Teleport(Seq<Seq<char>>),
}

/// An error with its text seen as a character sequence.
pub enum CommandErrorView {
    PlayerNotFound,
    ItemNotFound,
    CountNotANumber,
    CommandNotFound(Seq<char>),
}

/// The view of an action.
pub open spec fn command_view(a: CommandAction) -> CommandView {
    match a {
        CommandAction::Give { item, count } => CommandView::Give(item, count),
        CommandAction::Teleport { args } => CommandView::Teleport(
            args@.map_values(|s: String| s@),
        ),
    }
}

/// The view of an error.
pub open spec fn command_error_view(e: CommandError) -> CommandErrorView {
    match e {
        CommandError::PlayerNotFound => CommandErrorView::PlayerNotFound,
        CommandError::ItemNotFound => CommandErrorView::ItemNotFound,
        CommandError::CountNotANumber => CommandErrorView::CountNotANumber,
        CommandError::CommandNotFound(n) => CommandErrorView::CommandNotFound(n@),
    }
}

/// The view of a result.
pub open spec fn command_result_view(r: Result<CommandAction, CommandError>) -> Result<CommandView, CommandErrorView> {
    match r {
        Ok(a) => Ok(command_view(a)),
        Err(e) => Err(command_error_view(e)),
    }
}

/// The stack count a `give` asks for with a typed number `n` of items:
/// one less than `n`, kept to 8 bits, so that 0 asks for 256 items.
pub open spec fn give_count(n: u16) -> u8 {
    ((n as int + 255) % 256) as u8
}

/// A `give` with a number `n` of 1 to 256 items asks for a stack that holds
/// exactly `n` items.
pub proof fn lemma_give_count_holds(n: u16)
    requires
        1 <= n <= 256,
    ensures
        give_count(n) as int + 1 == n,
{
}

/// What the command line `msg` gives. Its words are the pieces between
/// spaces; the first names the command. `give` takes an item's name and an
/// optional number of items (one by default); `tp` takes the rest as the
/// coordinates. Both need the player to be there, which is checked first.
pub open spec fn command_spec(msg: Seq<char>, player_found: bool) -> Result<CommandView, CommandErrorView> {
    let words = split_spec(msg, ' ');
    let name = words[0];
    if name == "give"@ {
        if !player_found {
            Err(CommandErrorView::PlayerNotFound)
        } else if words.len() < 2 {
            Err(CommandErrorView::ItemNotFound)
        } else {
            match item_object_from_name(words[1]) {
                None => Err(CommandErrorView::ItemNotFound),
                Some(item) => if words.len() >= 3 {
                    match parse_u16_spec(words[2]) {
                        None => Err(CommandErrorView::CountNotANumber),
                        Some(n) => Ok(CommandView::Give(item, give_count(n))),
                    }
                } else {
                    Ok(CommandView::Give(item, 0))
                },
            }
        }
    } else if name == "tp"@ {
        if !player_found {
            Err(CommandErrorView::PlayerNotFound)
        } else {
            Ok(CommandView::Teleport(words.skip(1)))
        }
    } else {
        Err(CommandErrorView::CommandNotFound(name))
    }
}

/// Reads the command line `msg` (see `command_spec`); `player_found` says
/// whether the player is there to act on.
pub fn parse_command(msg: &str, player_found: bool) -> (r: Result<CommandAction, CommandError>)
    ensures
        command_result_view(r) == command_spec(msg@, player_found),
{
    let words = split_on(msg, ' ');
    proof {
        lemma_split_len_pos(msg@, ' ');
    }
    let ghost ws = split_spec(msg@, ' ');
    let name = words[0].as_str();
    if text_eq(name, "give") {
        if !player_found {
            return Err(CommandError::PlayerNotFound);
        }
        if words.len() < 2 {
            return Err(CommandError::ItemNotFound);
        }
        let item = match ItemObject::from_name(words[1].as_str()) {
            Some(item) => item,
            None => {
                return Err(CommandError::ItemNotFound);
            },
        };
        let count: u8 = if words.len() >= 3 {
            match parse_u16(words[2].as_str()) {
                Some(n) => ((n as u32 + 255) % 256) as u8,
                None => {
                    return Err(CommandError::CountNotANumber);
                },
            }
        } else {
            0
        };
        Ok(CommandAction::Give { item, count })
    } else if text_eq(name, "tp") {
        if !player_found {
            return Err(CommandError::PlayerNotFound);
        }
        let mut args: Vec<String> = Vec::new();
        let mut i: usize = 1;
        while i < words.len()
            invariant
                1 <= i <= words@.len(),
                words@.len() == ws.len(),
                forall|k: int| 0 <= k < words@.len() ==> #[trigger] words@[k]@ == ws[k],
                args@.len() == i - 1,
                forall|k: int| 0 <= k < args@.len() ==> #[trigger] args@[k]@ == ws[k + 1],
            decreases words.len() - i,
        {
            args.push(words[i].clone());
            i = i + 1;
        }
        proof {
            assert(args@.map_values(|s: String| s@) =~= ws.skip(1));
        }
        Ok(CommandAction::Teleport { args })
    } else {
        Err(CommandError::CommandNotFound(words[0].clone()))
    }
}

impl CommandError {
    /// The message that reports the error.
    pub fn message(&self) -> (m: String)
        ensures
            m@ == match *self {
                CommandError::PlayerNotFound => "Player not found"@,
                CommandError::ItemNotFound => "Item not found"@,
                CommandError::CountNotANumber => "Second arg must be a number"@,
                CommandError::CommandNotFound(n) => "Command not found "@ + n@,
            },
    {
        match self {
            CommandError::PlayerNotFound => owned("Player not found"),
            CommandError::ItemNotFound => owned("Item not found"),
            CommandError::CountNotANumber => owned("Second arg must be a number"),
            CommandError::CommandNotFound(n) => {
                let mut m = owned("Command not found ");
                m.append(n.as_str());
                m
            },
        }
    }
}

} // verus!
