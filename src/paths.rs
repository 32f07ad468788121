use vstd::prelude::*;
use vstd::string::*;

verus! {

/// Number of directories that provisioning creates.
pub const DIRECTORY_COUNT: usize = 5;

/// Number of built-in themes.
pub const THEME_COUNT: usize = 2;

/// True when the path may name the home directory by its shorthand: a `~`
/// alone or followed by a separator.
pub open spec fn home_prefixed(s: Seq<char>) -> bool {
    s.len() > 0 && s[0] == '~' && (s.len() == 1 || s[1] == '/' || s[1] == '\\')
}

/// What any expansion of `s` may be: `s` itself, or, for a home-prefixed
/// path, some directory followed by what came after the `~`.
pub open spec fn expansion_of(s: Seq<char>, r: Seq<char>) -> bool {
    ||| r == s
    ||| (home_prefixed(s) && exists|home: Seq<char>| r == home + s.drop_first())
}

/// Relies on shellexpand::tilde: a leading `~` (alone or before `/`) is
/// replaced by the home directory when one is known; any other path comes
/// back unchanged.
#[verifier::external_body]
fn expand_home(path: &str) -> (r: String)
    ensures
        expansion_of(path@, r@),
        !home_prefixed(path@) ==> r@ == path@,
{
    shellexpand::tilde(path).into_owned()
}

/// The decimal digits of `n`, most significant first.
pub open spec fn decimal(n: nat) -> Seq<char>
    decreases n,
{
    if n < 10 {
        seq![digit_char(n)]
    } else {
        decimal(n / 10) + seq![digit_char(n % 10)]
    }
}

pub open spec fn digit_char(d: nat) -> char {
    if d == 0 { '0' }
    else if d == 1 { '1' }
    else if d == 2 { '2' }
    else if d == 3 { '3' }
    else if d == 4 { '4' }
    else if d == 5 { '5' }
    else if d == 6 { '6' }
    else if d == 7 { '7' }
    else if d == 8 { '8' }
    else { '9' }
}

fn digit_str(d: u64) -> (r: &'static str)
    requires
        d < 10,
    ensures
        r@ == seq![digit_char(d as nat)],
{
    proof {
        reveal_strlit("0");
        reveal_strlit("1");
        reveal_strlit("2");
        reveal_strlit("3");
        reveal_strlit("4");
        reveal_strlit("5");
        reveal_strlit("6");
        reveal_strlit("7");
        reveal_strlit("8");
        reveal_strlit("9");
    }
    let r = if d == 0 { "0" }
    else if d == 1 { "1" }
    else if d == 2 { "2" }
    else if d == 3 { "3" }
    else if d == 4 { "4" }
    else if d == 5 { "5" }
    else if d == 6 { "6" }
    else if d == 7 { "7" }
    else if d == 8 { "8" }
    else { "9" };
    assert(r@ =~= seq![digit_char(d as nat)]);
    r
}

/// Appends the decimal form of `n`.
fn push_decimal(s: &mut String, n: u64)
    ensures
        final(s)@ == old(s)@ + decimal(n as nat),
    decreases n,
{
    if n >= 10 {
        push_decimal(s, n / 10);
    }
    let d = digit_str(n % 10);
    s.append(d);
    assert(final(s)@ =~= old(s)@ + decimal(n as nat));
}

/// `dir/name`.
pub open spec fn joined(dir: Seq<char>, name: Seq<char>) -> Seq<char> {
    dir + seq!['/'] + name
}

pub open spec fn theme_name(i: int) -> Seq<char> {
    if i == 0 { "dark"@ } else { "light"@ }
}

pub open spec fn stamped_name(ts: u64, suffix: Seq<char>) -> Seq<char> {
    "config_"@ + decimal(ts as nat) + suffix
}

fn join(dir: &String, name: &str) -> (r: String)
    ensures
        r@ == joined(dir@, name@),
{
    let mut r = dir.clone();
    r.append("/");
    r.append(name);
    proof {
        reveal_strlit("/");
    }
    assert(r@ =~= joined(dir@, name@));
    r
}

fn stamped(dir: &String, ts: u64, suffix: &str) -> (r: String)
    ensures
        r@ == joined(dir@, stamped_name(ts, suffix@)),
{
    let mut name = String::from_str("config_");
    push_decimal(&mut name, ts);
    name.append(suffix);
    join(dir, name.as_str())
}

/// Where the configuration files live: a themes directory and a per-user
/// application root, both already expanded.
pub struct Layout {
    pub themes_dir: String,
    pub app_root: String,
}

impl Layout {
    /// Builds a layout from two logical paths, expanding a home shorthand
    /// in each.
    pub fn new(themes_dir: &str, app_root: &str) -> (r: Layout)
        ensures
            expansion_of(themes_dir@, r.themes_dir@),
            expansion_of(app_root@, r.app_root@),
    {
        Layout { themes_dir: expand_home(themes_dir), app_root: expand_home(app_root) }
    }

    /// The application's own layout: `assets/themes` and `~/.securechat`.
    pub fn standard() -> (r: Layout)
        ensures
            r.themes_dir@ == "assets/themes"@,
            expansion_of("~/.securechat"@, r.app_root@),
    {
        proof {
            reveal_strlit("assets/themes");
        }
        Layout::new("assets/themes", "~/.securechat")
    }

    pub open spec fn quarantine_dir_spec(&self) -> Seq<char> {
        joined(self.app_root@, "quarantine"@)
    }

    pub open spec fn backup_dir_spec(&self) -> Seq<char> {
        joined(self.app_root@, "backups"@)
    }

    /// The directories that provisioning creates, in order.
    pub open spec fn directory_spec(&self, i: int) -> Seq<char> {
        if i == 0 {
            self.themes_dir@
        } else if i == 1 {
            joined(self.app_root@, "keys"@)
        } else if i == 2 {
            joined(self.app_root@, "history"@)
        } else if i == 3 {
            self.backup_dir_spec()
        } else {
            self.quarantine_dir_spec()
        }
    }

    pub open spec fn theme_path_spec(&self, i: int) -> Seq<char> {
        joined(self.themes_dir@, theme_name(i) + ".json"@)
    }

    pub open spec fn config_path_spec(&self) -> Seq<char> {
        joined(self.app_root@, "config.ron"@)
    }

    pub open spec fn quarantine_path_spec(&self, ts: u64) -> Seq<char> {
        joined(self.quarantine_dir_spec(), stamped_name(ts, ".ron.broken"@))
    }

    pub fn directory(&self, i: usize) -> (r: String)
        requires
            i < DIRECTORY_COUNT,
        ensures
            r@ == self.directory_spec(i as int),
    {
        if i == 0 {
            self.themes_dir.clone()
        } else if i == 1 {
            join(&self.app_root, "keys")
        } else if i == 2 {
            join(&self.app_root, "history")
        } else if i == 3 {
            join(&self.app_root, "backups")
        } else {
            join(&self.app_root, "quarantine")
        }
    }

    pub fn theme_name(i: usize) -> (r: &'static str)
        requires
            i < THEME_COUNT,
        ensures
            r@ == theme_name(i as int),
    {
        if i == 0 { "dark" } else { "light" }
    }

    pub fn theme_path(&self, i: usize) -> (r: String)
        requires
            i < THEME_COUNT,
        ensures
            r@ == self.theme_path_spec(i as int),
    {
        let name = String::from_str(Layout::theme_name(i)).concat(".json");
        join(&self.themes_dir, name.as_str())
    }

    pub fn config_path(&self) -> (r: String)
        ensures
            r@ == self.config_path_spec(),
    {
        join(&self.app_root, "config.ron")
    }

    pub fn backup_dir(&self) -> (r: String)
        ensures
            r@ == self.backup_dir_spec(),
    {
        join(&self.app_root, "backups")
    }

    /// `<root>/quarantine/config_<ts>.ron.broken`.
    pub fn quarantine_path(&self, ts: u64) -> (r: String)
        ensures
            r@ == self.quarantine_path_spec(ts),
    {
        let dir = join(&self.app_root, "quarantine");
        stamped(&dir, ts, ".ron.broken")
    }
}

} // verus!
