//! The fixed text blocks of the user interface: the banner, the farewell
//! screen, the bottom tip line and the help page. Each getter returns
//! exactly the text its spec function names, so the presentation layer
//! renders known content.

use vstd::prelude::*;

verus! {

/// The banner shown at the top of the screen.
pub open spec fn spec_banner() -> Seq<char> {
    "    _  _____ _    _      ___ __  __     _   _    _    \r\n   | |/ |_ _| |  | |    | __|  \\/  |   /_\\ | |  | |   \r\n   | ' < | || |__| |__  | _|| |\\/| |  / _ \\| |__| |__ \r\n   |_|\\_|___|____|____| |___|_|  |_| /_/ \\_|____|____|\r\n"@
}

pub fn get_banner() -> (r: String)
    ensures
        r@ == spec_banner(),
{
    "    _  _____ _    _      ___ __  __     _   _    _    \r\n   | |/ |_ _| |  | |    | __|  \\/  |   /_\\ | |  | |   \r\n   | ' < | || |__| |__  | _|| |\\/| |  / _ \\| |__| |__ \r\n   |_|\\_|___|____|____| |___|_|  |_| /_/ \\_|____|____|\r\n".to_owned()
}

/// The farewell screen shown when the program exits.
pub open spec fn spec_bye() -> Seq<char> {
    "    ________      ___    ___ _______   ___  ___       \r\n   |\\   __  \\    |\\  \\  /  /|\\  ___ \\ |\\  \\|\\  \\      \r\n   \\ \\  \\|\\ /_   \\ \\  \\/  / | \\   __/|\\ \\  \\ \\  \\     \r\n    \\ \\   __  \\   \\ \\    / / \\ \\  \\_|/_\\ \\  \\ \\  \\    \r\n     \\ \\  \\|\\  \\   \\/  /  /   \\ \\  \\_|\\ \\ \\__\\ \\__\\   \r\n      \\ \\_______\\__/  / /      \\ \\_______\\|__|\\|__|   \r\n       \\|_______|\\___/ /        \\|_______|   ___  ___ \r\n                \\|___|/                     |\\__\\|\\__\\\r\n                                            \\|__|\\|__|\r\n"@
}

pub fn get_bye() -> (r: String)
    ensures
        r@ == spec_bye(),
{
    "    ________      ___    ___ _______   ___  ___       \r\n   |\\   __  \\    |\\  \\  /  /|\\  ___ \\ |\\  \\|\\  \\      \r\n   \\ \\  \\|\\ /_   \\ \\  \\/  / | \\   __/|\\ \\  \\ \\  \\     \r\n    \\ \\   __  \\   \\ \\    / / \\ \\  \\_|/_\\ \\  \\ \\  \\    \r\n     \\ \\  \\|\\  \\   \\/  /  /   \\ \\  \\_|\\ \\ \\__\\ \\__\\   \r\n      \\ \\_______\\__/  / /      \\ \\_______\\|__|\\|__|   \r\n       \\|_______|\\___/ /        \\|_______|   ___  ___ \r\n                \\|___|/                     |\\__\\|\\__\\\r\n                                            \\|__|\\|__|\r\n".to_owned()
}

/// The tip line shown at the bottom of the selector screen.
pub open spec fn spec_bottom_tips() -> Seq<char> {
    "[q] to Exit. Type \"-help\" to review the guide."@
}

pub fn get_bottom_tips() -> (r: String)
    ensures
        r@ == spec_bottom_tips(),
{
    "[q] to Exit. Type \"-help\" to review the guide.".to_owned()
}

/// The help page listing the key bindings and the text commands.
pub open spec fn spec_help() -> Seq<char> {
    "\n    Controls:\n     - [q] to quit. [f]/[b] jump to next/previous 10 options. \n     - [j]/[Arrow Down] select next 1 option. [k]/[Arrow Up] select previous 1 option \n     will add more controls in the future\n    Input:\n     - \"-open\" open the dir with finder/explorer.\n     - \"-config\" open the config dir with finder/explorer.\n    "@
}

pub fn get_help() -> (r: String)
    ensures
        r@ == spec_help(),
{
    "\n    Controls:\n     - [q] to quit. [f]/[b] jump to next/previous 10 options. \n     - [j]/[Arrow Down] select next 1 option. [k]/[Arrow Up] select previous 1 option \n     will add more controls in the future\n    Input:\n     - \"-open\" open the dir with finder/explorer.\n     - \"-config\" open the config dir with finder/explorer.\n    ".to_owned()
}

} // verus!
