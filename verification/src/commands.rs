use vstd::prelude::*;
use crate::localizable::{Localizable, Localization};
use crate::nameable::Nameable;

verus! {

/// What kind of thing a command option is.
#[derive(Clone, Copy, Debug, PartialEq, Eq, Structural)]
pub enum OptionKind {
    SubCommand,
    SubCommandGroup,
    Attachment,
    Text,
}

/// One option of a command, or of another option.
pub struct OptionSpec {
    /// The option's name.
    pub name: String,
    /// The message under which its description is found.
    pub key: String,
    pub kind: OptionKind,
    pub required: bool,
    /// Its description in the default locale.
    pub description: String,
    /// Its descriptions in other locales.
    pub localized: Vec<Localization>,
    pub options: Vec<OptionSpec>,
}

/// A command as it is registered with the platform.
pub struct CommandSpec {
    /// The command's name.
    pub name: String,
    /// The message under which its description is found.
    pub key: String,
    /// Its description in the default locale.
    pub description: String,
    /// Its descriptions in other locales.
    pub localized: Vec<Localization>,
    pub options: Vec<OptionSpec>,
}

/// The (locale, text) pairs of a list of localizations.
pub open spec fn pairs(list: Seq<Localization>) -> Seq<(Seq<char>, Seq<char>)> {
    Seq::new(list.len(), |i: int| (list[i].locale@, list[i].text@))
}

impl Nameable for OptionSpec {
    open spec fn spec_name(&self) -> Seq<char> {
        self.name@
    }

    fn name(&mut self, name: &str) -> (r: &mut Self)
        ensures
            r.key == old(self).key,
            r.kind == old(self).kind,
            r.required == old(self).required,
            r.description == old(self).description,
            r.localized == old(self).localized,
            r.options == old(self).options,
    {
        self.name = name.to_string();
        self
    }
}

impl Nameable for CommandSpec {
    open spec fn spec_name(&self) -> Seq<char> {
        self.name@
    }

    fn name(&mut self, name: &str) -> (r: &mut Self)
        ensures
            r.key == old(self).key,
            r.description == old(self).description,
            r.localized == old(self).localized,
            r.options == old(self).options,
    {
        self.name = name.to_string();
        self
    }
}

impl Localizable for OptionSpec {
    open spec fn default_text(&self) -> Seq<char> {
        self.description@
    }

    open spec fn localized(&self) -> Seq<(Seq<char>, Seq<char>)> {
        pairs(self.localized@)
    }

    fn localize_default(&mut self, localization: &str) -> (r: &mut Self)
        ensures
            r.name == old(self).name,
            r.key == old(self).key,
            r.kind == old(self).kind,
            r.required == old(self).required,
            r.localized == old(self).localized,
            r.options == old(self).options,
    {
        self.description = localization.to_string();
        self
    }

    fn localize(&mut self, locale: &str, localization: &str) -> (r: &mut Self)
        ensures
            r.name == old(self).name,
            r.key == old(self).key,
            r.kind == old(self).kind,
            r.required == old(self).required,
            r.description == old(self).description,
            r.options == old(self).options,
    {
        self.localized.push(
            Localization { locale: locale.to_string(), text: localization.to_string() },
        );
        assert(pairs(self.localized@) =~= pairs(old(self).localized@).push(
            (locale@, localization@),
        ));
        self
    }
}

impl Localizable for CommandSpec {
    open spec fn default_text(&self) -> Seq<char> {
        self.description@
    }

    open spec fn localized(&self) -> Seq<(Seq<char>, Seq<char>)> {
        pairs(self.localized@)
    }

    fn localize_default(&mut self, localization: &str) -> (r: &mut Self)
        ensures
            r.name == old(self).name,
            r.key == old(self).key,
            r.localized == old(self).localized,
            r.options == old(self).options,
    {
        self.description = localization.to_string();
        self
    }

    fn localize(&mut self, locale: &str, localization: &str) -> (r: &mut Self)
        ensures
            r.name == old(self).name,
            r.key == old(self).key,
            r.description == old(self).description,
            r.options == old(self).options,
    {
        self.localized.push(
            Localization { locale: locale.to_string(), text: localization.to_string() },
        );
        assert(pairs(self.localized@) =~= pairs(old(self).localized@).push(
            (locale@, localization@),
        ));
        self
    }
}

/// An option that has a name, a message key and a kind, and nothing else
/// yet.
pub open spec fn is_bare_option(
    o: OptionSpec,
    name: Seq<char>,
    key: Seq<char>,
    kind: OptionKind,
    required: bool,
) -> bool {
    &&& o.name@ == name
    &&& o.key@ == key
    &&& o.kind == kind
    &&& o.required == required
    &&& o.description@ == Seq::<char>::empty()
    &&& o.localized@ == Seq::<Localization>::empty()
}

/// An option without a description yet.
pub fn option(name: &str, key: &str, kind: OptionKind, required: bool, options: Vec<OptionSpec>) -> (o:
    OptionSpec)
    ensures
        is_bare_option(o, name@, key@, kind, required),
        o.options == options,
{
    OptionSpec {
        name: name.to_string(),
        key: key.to_string(),
        kind,
        required,
        description: String::new(),
        localized: Vec::new(),
        options,
    }
}

/// The bot's one command: `clear`, and `set` with `file` (an attachment)
/// and `url` (a link).
pub open spec fn is_chime_command(c: CommandSpec, root: Seq<char>) -> bool {
    &&& c.name@ == root
    &&& c.key@ == "base"@
    &&& c.description@ == Seq::<char>::empty()
    &&& c.localized@ == Seq::<Localization>::empty()
    &&& c.options@.len() == 2
    &&& is_bare_option(c.options@[0], "clear"@, "base-clear"@, OptionKind::SubCommand, false)
    &&& c.options@[0].options@.len() == 0
    &&& is_bare_option(c.options@[1], "set"@, "base-set"@, OptionKind::SubCommandGroup, false)
    &&& c.options@[1].options@.len() == 2
    &&& is_bare_option(
        c.options@[1].options@[0],
        "file"@,
        "base-set-file"@,
        OptionKind::SubCommand,
        false,
    )
    &&& c.options@[1].options@[0].options@.len() == 1
    &&& is_bare_option(
        c.options@[1].options@[0].options@[0],
        "attachment"@,
        "base-set-file-attachment"@,
        OptionKind::Attachment,
        true,
    )
    &&& c.options@[1].options@[0].options@[0].options@.len() == 0
    &&& is_bare_option(
        c.options@[1].options@[1],
        "url"@,
        "base-set-url"@,
        OptionKind::SubCommand,
        false,
    )
    &&& c.options@[1].options@[1].options@.len() == 1
    &&& is_bare_option(
        c.options@[1].options@[1].options@[0],
        "link"@,
        "base-set-url-link"@,
        OptionKind::Text,
        true,
    )
    &&& c.options@[1].options@[1].options@[0].options@.len() == 0
}

/// The command to register, named `root`, still without descriptions.
pub fn chime_command(root: &str) -> (c: CommandSpec)
    ensures
        is_chime_command(c, root@),
{
    let attachment = option(
        "attachment",
        "base-set-file-attachment",
        OptionKind::Attachment,
        true,
        Vec::new(),
    );
    let mut file_options: Vec<OptionSpec> = Vec::new();
    file_options.push(attachment);
    let file = option("file", "base-set-file", OptionKind::SubCommand, false, file_options);
    let link = option("link", "base-set-url-link", OptionKind::Text, true, Vec::new());
    let mut url_options: Vec<OptionSpec> = Vec::new();
    url_options.push(link);
    let url = option("url", "base-set-url", OptionKind::SubCommand, false, url_options);
    let mut set_options: Vec<OptionSpec> = Vec::new();
    set_options.push(file);
    set_options.push(url);
    let set = option("set", "base-set", OptionKind::SubCommandGroup, false, set_options);
    let clear = option("clear", "base-clear", OptionKind::SubCommand, false, Vec::new());
    let mut options: Vec<OptionSpec> = Vec::new();
    options.push(clear);
    options.push(set);
    CommandSpec {
        name: root.to_string(),
        key: "base".to_string(),
        description: String::new(),
        localized: Vec::new(),
        options,
    }
}

} // verus!
