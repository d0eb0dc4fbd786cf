//! The table of known package managers and the commands rendered from it.

use vstd::prelude::*;
use crate::error::{Error, ErrorView};
use crate::text::{contains_text, join_tokens, joined, texts};

verus! {

/// The package managers this library knows, in no particular order.
#[derive(Clone, Copy, Debug, PartialEq, Eq, Structural)]
pub enum ManagerKind {
    Apt,
    Dnf,
    Pacman,
    Zypper,
    Apk,
    Pkg,
}

/// Mathematical model of a descriptor: its five texts.
pub struct DescriptorView {
    pub name: Seq<char>,
    pub install: Seq<char>,
    pub uninstall: Seq<char>,
    pub update: Option<Seq<char>>,
    pub flags: Seq<char>,
}

/// How one package manager is called: its program name, the verbs that
/// install and remove packages, the verb that refreshes its index (if it
/// needs one before installing), and the flags that keep it from asking
/// questions.
#[derive(Clone, Copy, Debug)]
pub struct PackageManagerDescriptor {
    pub name: &'static str,
    pub install: &'static str,
    pub uninstall: &'static str,
    pub update: Option<&'static str>,
    pub flags: &'static str,
}

impl View for PackageManagerDescriptor {
    type V = DescriptorView;

    open spec fn view(&self) -> DescriptorView {
        DescriptorView {
            name: self.name@,
            install: self.install@,
            uninstall: self.uninstall@,
            update: match self.update {
                Some(u) => Some(u@),
                None => None,
            },
            flags: self.flags@,
        }
    }
}

/// The text that chains two commands so that the second runs only if the first succeeded.
pub open spec fn chain_text() -> Seq<char> {
    " && "@
}

/// The text that ends every rendered command: the shell leaves once the chain is through.
pub open spec fn exit_text() -> Seq<char> {
    " && exit"@
}

/// One call of the manager: `<name> <verb> <flags>`.
pub open spec fn invocation(d: DescriptorView, verb: Seq<char>) -> Seq<char> {
    d.name + " "@ + verb + " "@ + d.flags
}

/// What stands before the package list in an install command. It does not
/// depend on the packages.
pub open spec fn install_head(d: DescriptorView) -> Seq<char> {
    match d.update {
        Some(u) => invocation(d, u) + chain_text() + invocation(d, d.install) + " "@,
        None => invocation(d, d.install) + " "@,
    }
}

/// What stands before the package list in an uninstall command.
pub open spec fn uninstall_head(d: DescriptorView) -> Seq<char> {
    invocation(d, d.uninstall) + " "@
}

/// The command that installs the packages:
/// `<name> <update> <flags> && <name> <install> <flags> <pkgs> && exit`
/// for a manager that refreshes its index first, and
/// `<name> <install> <flags> <pkgs> && exit` for one that does not.
pub open spec fn install_command(d: DescriptorView, pkgs: Seq<Seq<char>>) -> Seq<char> {
    install_head(d) + joined(pkgs) + exit_text()
}

/// The command that removes the packages: `<name> <uninstall> <flags> <pkgs> && exit`.
pub open spec fn uninstall_command(d: DescriptorView, pkgs: Seq<Seq<char>>) -> Seq<char> {
    uninstall_head(d) + joined(pkgs) + exit_text()
}

/// The descriptor of each known manager.
pub open spec fn descriptor_of(kind: ManagerKind) -> DescriptorView {
    match kind {
        ManagerKind::Apt => DescriptorView {
            name: "apt-get"@,
            install: "install"@,
            uninstall: "remove"@,
            update: Some("update"@),
            flags: "-y"@,
        },
        ManagerKind::Dnf => DescriptorView {
            name: "dnf"@,
            install: "install"@,
            uninstall: "remove"@,
            update: Some("update"@),
            flags: "-y"@,
        },
        ManagerKind::Pacman => DescriptorView {
            name: "pacman"@,
            install: "-S"@,
            uninstall: "-Rns"@,
            update: Some("-Sy"@),
            flags: "--noconfirm"@,
        },
        ManagerKind::Zypper => DescriptorView {
            name: "zypper"@,
            install: "install"@,
            uninstall: "remove"@,
            update: Some("update"@),
            flags: "-y"@,
        },
        ManagerKind::Apk => DescriptorView {
            name: "apk"@,
            install: "add"@,
            uninstall: "del"@,
            update: Some("update"@),
            flags: ""@,
        },
        ManagerKind::Pkg => DescriptorView {
            name: "pkg"@,
            install: "install"@,
            uninstall: "autoremove"@,
            update: Some("update"@),
            flags: "-y"@,
        },
    }
}

/// The order in which the managers are tried.
pub open spec fn priority() -> Seq<ManagerKind> {
    seq![
        ManagerKind::Apt,
        ManagerKind::Dnf,
        ManagerKind::Pacman,
        ManagerKind::Zypper,
        ManagerKind::Apk,
        ManagerKind::Pkg,
    ]
}

/// The descriptors of the known managers, in the order in which they are tried.
pub open spec fn standard_entries() -> Seq<DescriptorView> {
    Seq::new(priority().len(), |i: int| descriptor_of(priority()[i]))
}

impl ManagerKind {
    /// The known managers in the order in which they are tried.
    pub fn all() -> (kinds: Vec<ManagerKind>)
        ensures
            kinds@ == priority(),
    {
        let mut kinds: Vec<ManagerKind> = Vec::new();
        kinds.push(ManagerKind::Apt);
        kinds.push(ManagerKind::Dnf);
        kinds.push(ManagerKind::Pacman);
        kinds.push(ManagerKind::Zypper);
        kinds.push(ManagerKind::Apk);
        kinds.push(ManagerKind::Pkg);
        assert(kinds@ =~= priority());
        kinds
    }

    /// The descriptor of this manager.
    pub fn descriptor(self) -> (d: PackageManagerDescriptor)
        ensures
            d@ == descriptor_of(self),
    {
        match self {
            ManagerKind::Apt => PackageManagerDescriptor {
                name: "apt-get",
                install: "install",
                uninstall: "remove",
                update: Some("update"),
                flags: "-y",
            },
            ManagerKind::Dnf => PackageManagerDescriptor {
                name: "dnf",
                install: "install",
                uninstall: "remove",
                update: Some("update"),
                flags: "-y",
            },
            ManagerKind::Pacman => PackageManagerDescriptor {
                name: "pacman",
                install: "-S",
                uninstall: "-Rns",
                update: Some("-Sy"),
                flags: "--noconfirm",
            },
            ManagerKind::Zypper => PackageManagerDescriptor {
                name: "zypper",
                install: "install",
                uninstall: "remove",
                update: Some("update"),
                flags: "-y",
            },
            ManagerKind::Apk => PackageManagerDescriptor {
                name: "apk",
                install: "add",
                uninstall: "del",
                update: Some("update"),
                flags: "",
            },
            ManagerKind::Pkg => PackageManagerDescriptor {
                name: "pkg",
                install: "install",
                uninstall: "autoremove",
                update: Some("update"),
                flags: "-y",
            },
        }
    }
}

impl PackageManagerDescriptor {
    fn invoke(&self, verb: &str) -> (out: String)
        ensures
            out@ == invocation(self@, verb@),
    {
        let mut out = String::from_str(self.name);
        out.append(" ");
        out.append(verb);
        out.append(" ");
        out.append(self.flags);
        out
    }

    /// The program name of the manager.
    pub fn name(&self) -> (n: &'static str)
        ensures
            n@ == self@.name,
    {
        self.name
    }

    /// Renders the command that installs `pkgs`.
    pub fn install(&self, pkgs: &Vec<String>) -> (out: String)
        ensures
            out@ == install_command(self@, texts(pkgs@)),
    {
        let mut out = match self.update {
            Some(update) => {
                let mut first = self.invoke(update);
                first.append(" && ");
                let second = self.invoke(self.install);
                first.append(second.as_str());
                first
            },
            None => self.invoke(self.install),
        };
        out.append(" ");
        let list = join_tokens(pkgs);
        out.append(list.as_str());
        out.append(" && exit");
        assert(out@ =~= install_command(self@, texts(pkgs@)));
        out
    }

    /// Renders the command that removes `pkgs`.
    pub fn uninstall(&self, pkgs: &Vec<String>) -> (out: String)
        ensures
            out@ == uninstall_command(self@, texts(pkgs@)),
    {
        let mut out = self.invoke(self.uninstall);
        out.append(" ");
        let list = join_tokens(pkgs);
        out.append(list.as_str());
        out.append(" && exit");
        assert(out@ =~= uninstall_command(self@, texts(pkgs@)));
        out
    }
}

/// `needle` stands in `hay` at position `at`.
pub open spec fn occurs_at(hay: Seq<char>, needle: Seq<char>, at: int) -> bool {
    &&& 0 <= at
    &&& at + needle.len() <= hay.len()
    &&& hay.subrange(at, at + needle.len()) == needle
}

/// `hay` ends with `tail`.
pub open spec fn ends_with(hay: Seq<char>, tail: Seq<char>) -> bool {
    occurs_at(hay, tail, hay.len() - tail.len())
}

/// Where the flags stand in one call of the manager with the given verb.
pub open spec fn flags_position(d: DescriptorView, verb: Seq<char>) -> int {
    (d.name.len() + 1 + verb.len() + 1) as int
}

proof fn lemma_flags_in_invocation(d: DescriptorView, verb: Seq<char>, rest: Seq<char>)
    ensures
        occurs_at(invocation(d, verb) + rest, d.flags, flags_position(d, verb)),
{
    reveal_strlit(" ");
    let hay = invocation(d, verb) + rest;
    let at = flags_position(d, verb);
    assert(hay.subrange(at, at + d.flags.len()) =~= d.flags);
}

/// The shape of every install command, for every descriptor and every
/// package list: the joined package list stands in it once, between a head
/// and a tail that do not depend on the packages; the manager's flags stand
/// in the head; and the command ends with `&& exit`.
pub proof fn lemma_install_shape(d: DescriptorView, pkgs: Seq<Seq<char>>)
    ensures
        install_command(d, pkgs) == install_head(d) + joined(pkgs) + exit_text(),
        install_command(d, pkgs).len() == install_head(d).len() + joined(pkgs).len()
            + exit_text().len(),
        occurs_at(install_command(d, pkgs), joined(pkgs), install_head(d).len() as int),
        occurs_at(
            install_command(d, pkgs),
            d.flags,
            flags_position(
                d,
                match d.update {
                    Some(u) => u,
                    None => d.install,
                },
            ),
        ),
        ends_with(install_command(d, pkgs), "&& exit"@),
{
    let out = install_command(d, pkgs);
    let head = install_head(d);
    let list = joined(pkgs);
    assert(out.subrange(head.len() as int, (head.len() + list.len()) as int) =~= list);
    match d.update {
        Some(u) => {
            let rest = chain_text() + invocation(d, d.install) + " "@ + list + exit_text();
            assert(out =~= invocation(d, u) + rest);
            lemma_flags_in_invocation(d, u, rest);
        },
        None => {
            let rest = " "@ + list + exit_text();
            assert(out =~= invocation(d, d.install) + rest);
            lemma_flags_in_invocation(d, d.install, rest);
        },
    }
    lemma_ends_with_exit(head + list);
}

/// The shape of every uninstall command: as for an install command, with
/// the head of the uninstall verb.
pub proof fn lemma_uninstall_shape(d: DescriptorView, pkgs: Seq<Seq<char>>)
    ensures
        uninstall_command(d, pkgs) == uninstall_head(d) + joined(pkgs) + exit_text(),
        uninstall_command(d, pkgs).len() == uninstall_head(d).len() + joined(pkgs).len()
            + exit_text().len(),
        occurs_at(uninstall_command(d, pkgs), joined(pkgs), uninstall_head(d).len() as int),
        occurs_at(uninstall_command(d, pkgs), d.flags, flags_position(d, d.uninstall)),
        ends_with(uninstall_command(d, pkgs), "&& exit"@),
{
    let out = uninstall_command(d, pkgs);
    let head = uninstall_head(d);
    let list = joined(pkgs);
    assert(out.subrange(head.len() as int, (head.len() + list.len()) as int) =~= list);
    let rest = " "@ + list + exit_text();
    assert(out =~= invocation(d, d.uninstall) + rest);
    lemma_flags_in_invocation(d, d.uninstall, rest);
    lemma_ends_with_exit(head + list);
}

proof fn lemma_ends_with_exit(front: Seq<char>)
    ensures
        ends_with(front + exit_text(), "&& exit"@),
{
    reveal_strlit(" && exit");
    reveal_strlit("&& exit");
    let hay = front + exit_text();
    let tail = "&& exit"@;
    assert(hay.subrange(hay.len() - tail.len(), hay.len() as int) =~= tail);
}

/// `needle` stands somewhere in `hay`.
pub open spec fn occurs_in(hay: Seq<char>, needle: Seq<char>) -> bool {
    exists|at: int| occurs_at(hay, needle, at)
}

/// The part of a text before its first space: all of it if it has none.
pub open spec fn first_word(text: Seq<char>) -> Seq<char>
    decreases text.len(),
{
    if text.len() == 0 || text[0] == ' ' {
        Seq::empty()
    } else {
        seq![text[0]] + first_word(text.drop_first())
    }
}

/// The part of a text after its last space: all of it if it has none.
pub open spec fn last_word(text: Seq<char>) -> Seq<char>
    decreases text.len(),
{
    if text.len() == 0 || text.last() == ' ' {
        Seq::empty()
    } else {
        last_word(text.drop_last()).push(text.last())
    }
}

proof fn lemma_first_word(text: Seq<char>)
    ensures
        first_word(text).len() <= text.len(),
        first_word(text) == text.subrange(0, first_word(text).len() as int),
        forall|j: int| 0 <= j < first_word(text).len() ==> text[j] != ' ',
    decreases text.len(),
{
    if text.len() > 0 && text[0] != ' ' {
        let rest = text.drop_first();
        lemma_first_word(rest);
        let w = first_word(text);
        assert(w =~= text.subrange(0, w.len() as int)) by {
            assert forall|j: int| 0 <= j < w.len() implies w[j] == text[j] by {
                if j > 0 {
                    assert(w[j] == first_word(rest)[j - 1]);
                    assert(first_word(rest)[j - 1] == rest.subrange(
                        0,
                        first_word(rest).len() as int,
                    )[j - 1]);
                    assert(rest[j - 1] == text[j]);
                }
            }
        }
        assert forall|j: int| 0 <= j < w.len() implies text[j] != ' ' by {
            if j > 0 {
                assert(rest[j - 1] == text[j]);
            }
        }
    } else {
        assert(first_word(text) =~= text.subrange(0, 0));
    }
}

proof fn lemma_last_word(text: Seq<char>)
    ensures
        last_word(text).len() <= text.len(),
        last_word(text) == text.subrange(text.len() - last_word(text).len(), text.len() as int),
        forall|j: int| text.len() - last_word(text).len() <= j < text.len() ==> text[j] != ' ',
    decreases text.len(),
{
    if text.len() > 0 && text.last() != ' ' {
        let rest = text.drop_last();
        lemma_last_word(rest);
        let w = last_word(text);
        let start = text.len() - w.len();
        assert(w =~= text.subrange(start, text.len() as int)) by {
            assert forall|j: int| 0 <= j < w.len() implies w[j] == text[start + j] by {
                if j < w.len() - 1 {
                    assert(w[j] == last_word(rest)[j]);
                    assert(last_word(rest)[j] == rest.subrange(
                        rest.len() - last_word(rest).len(),
                        rest.len() as int,
                    )[j]);
                    assert(rest[start + j] == text[start + j]);
                }
            }
        }
        assert forall|j: int| start <= j < text.len() implies text[j] != ' ' by {
            if j < text.len() - 1 {
                assert(rest[j] == text[j]);
            }
        }
    } else {
        assert(last_word(text) =~= text.subrange(text.len() as int, text.len() as int));
    }
}

/// A list that stands between a head that ends with a space and a tail
/// that begins with one stands there and nowhere else, if its first word
/// does not occur in the head and its last word does not occur in the tail.
pub proof fn lemma_slot_once(head: Seq<char>, list: Seq<char>, tail: Seq<char>)
    requires
        head.len() > 0,
        head.last() == ' ',
        tail.len() > 0,
        tail[0] == ' ',
        !occurs_in(head, first_word(list)),
        !occurs_in(tail, last_word(list)),
    ensures
        forall|at: int| occurs_at(head + list + tail, list, at) <==> at == head.len(),
{
    let out = head + list + tail;
    let h = head.len() as int;
    let n = list.len() as int;
    let front = first_word(list);
    let back = last_word(list);
    lemma_first_word(list);
    lemma_last_word(list);
    assert(out.subrange(h, h + n) =~= list);
    assert(front.len() > 0) by {
        if front.len() == 0 {
            assert(head.subrange(0, 0) =~= front);
            assert(occurs_at(head, front, 0));
        }
    }
    assert(back.len() > 0) by {
        if back.len() == 0 {
            assert(tail.subrange(0, 0) =~= back);
            assert(occurs_at(tail, back, 0));
        }
    }
    assert forall|at: int| occurs_at(out, list, at) implies at == h by {
        let found = out.subrange(at, at + n);
        if at < h {
            let k = front.len() as int;
            if at + k > h {
                assert(found[h - 1 - at] == out[h - 1]);
                assert(out[h - 1] == head[h - 1]);
                assert(list[h - 1 - at] != ' ');
                assert(false);
            } else {
                assert(head.subrange(at, at + k) =~= front) by {
                    assert forall|j: int| 0 <= j < k implies head[at + j] == front[j] by {
                        assert(found[j] == out[at + j]);
                        assert(front[j] == list.subrange(0, k)[j]);
                    }
                }
                assert(occurs_at(head, front, at));
                assert(false);
            }
        } else if at > h {
            let m = back.len() as int;
            if at - m <= h {
                assert(found[h + n - at] == out[h + n]);
                assert(out[h + n] == tail[0]);
                assert(list[h + n - at] != ' ');
                assert(false);
            } else {
                let offset = at - m - h;
                assert(tail.subrange(offset, offset + m) =~= back) by {
                    assert forall|j: int| 0 <= j < m implies tail[offset + j] == back[j] by {
                        assert(found[n - m + j] == out[at + n - m + j]);
                        assert(out[at + n - m + j] == tail[offset + j]);
                        assert(back[j] == list.subrange(n - m, n)[j]);
                    }
                }
                assert(occurs_at(tail, back, offset));
                assert(false);
            }
        }
    }
}

/// The package list occurs exactly once in an install command: where the
/// template puts it and nowhere else. This holds of every descriptor and
/// of every list whose first word does not occur in what stands before the
/// list, and whose last word does not occur in the ending ` && exit`. A
/// list that borrows from the fixed text can occur twice: the packages `y`
/// and `y` after the flag `-y` do.
pub proof fn lemma_install_list_once(d: DescriptorView, pkgs: Seq<Seq<char>>)
    requires
        !occurs_in(install_head(d), first_word(joined(pkgs))),
        !occurs_in(exit_text(), last_word(joined(pkgs))),
    ensures
        forall|at: int|
            occurs_at(install_command(d, pkgs), joined(pkgs), at) <==> at == install_head(d).len(),
{
    reveal_strlit(" ");
    reveal_strlit(" && exit");
    lemma_slot_once(install_head(d), joined(pkgs), exit_text());
}

/// The package list occurs exactly once in an uninstall command, under the
/// same condition as in an install command.
pub proof fn lemma_uninstall_list_once(d: DescriptorView, pkgs: Seq<Seq<char>>)
    requires
        !occurs_in(uninstall_head(d), first_word(joined(pkgs))),
        !occurs_in(exit_text(), last_word(joined(pkgs))),
    ensures
        forall|at: int|
            occurs_at(uninstall_command(d, pkgs), joined(pkgs), at) <==> at == uninstall_head(
                d,
            ).len(),
{
    reveal_strlit(" ");
    reveal_strlit(" && exit");
    lemma_slot_once(uninstall_head(d), joined(pkgs), exit_text());
}

/// The position of the first entry, at `from` or later, whose program is installed.
pub open spec fn first_installed_from(
    entries: Seq<DescriptorView>,
    installed: Seq<Seq<char>>,
    from: int,
) -> Option<int>
    decreases entries.len() - from,
{
    if from < 0 || from >= entries.len() {
        None
    } else if installed.contains(entries[from].name) {
        Some(from)
    } else {
        first_installed_from(entries, installed, from + 1)
    }
}

/// The position of the first entry whose program is installed.
pub open spec fn first_installed(entries: Seq<DescriptorView>, installed: Seq<Seq<char>>) -> Option<
    int,
> {
    first_installed_from(entries, installed, 0)
}

/// An ordered, read-only table of package managers.
#[derive(Debug)]
pub struct PackageManagerCatalog {
    entries: Vec<PackageManagerDescriptor>,
}

impl View for PackageManagerCatalog {
    type V = Seq<DescriptorView>;

    closed spec fn view(&self) -> Seq<DescriptorView> {
        Seq::new(self.entries@.len(), |i: int| self.entries@[i]@)
    }
}

impl PackageManagerCatalog {
    /// The table of the known managers, in the order in which they are tried.
    pub fn standard() -> (catalog: PackageManagerCatalog)
        ensures
            catalog@ == standard_entries(),
    {
        let kinds = ManagerKind::all();
        let mut entries: Vec<PackageManagerDescriptor> = Vec::new();
        let mut i: usize = 0;
        while i < kinds.len()
            invariant
                i <= kinds.len(),
                kinds@ == priority(),
                entries@.len() == i,
                forall|j: int| 0 <= j < i ==> (#[trigger] entries@[j])@ == descriptor_of(kinds@[j]),
            decreases kinds.len() - i,
        {
            entries.push(kinds[i].descriptor());
            i = i + 1;
        }
        let catalog = PackageManagerCatalog { entries };
        assert(catalog@ =~= standard_entries());
        catalog
    }

    /// A table of the given entries, tried in the order given.
    pub fn new(entries: Vec<PackageManagerDescriptor>) -> (catalog: PackageManagerCatalog)
        ensures
            catalog@ == Seq::new(entries@.len(), |i: int| entries@[i]@),
    {
        PackageManagerCatalog { entries }
    }

    /// The number of entries.
    pub fn len(&self) -> (n: usize)
        ensures
            n == self@.len(),
    {
        self.entries.len()
    }

    /// The entry at position `i`.
    pub fn get(&self, i: usize) -> (d: PackageManagerDescriptor)
        requires
            i < self@.len(),
        ensures
            d@ == self@[i as int],
    {
        self.entries[i]
    }

    /// Picks the first entry whose program is among `installed`, the names of
    /// the programs found on the search path. Fails with `NotSupported` when
    /// there is none.
    pub fn select(&self, installed: &Vec<String>) -> (r: Result<PackageManagerDescriptor, Error>)
        ensures
            match first_installed(self@, texts(installed@)) {
                Some(i) => r matches Ok(d) && d@ == self@[i],
                None => r matches Err(e) && e@ == ErrorView::NotSupported,
            },
    {
        let mut i: usize = 0;
        while i < self.entries.len()
            invariant
                i <= self.entries.len(),
                first_installed(self@, texts(installed@)) == first_installed_from(
                    self@,
                    texts(installed@),
                    i as int,
                ),
            decreases self.entries.len() - i,
        {
            if contains_text(installed, self.entries[i].name) {
                return Ok(self.entries[i]);
            }
            i = i + 1;
        }
        Err(Error::NotSupported)
    }
}

/// What `select` picks is an installed entry before which no entry is
/// installed; it picks nothing exactly when no entry is installed.
pub proof fn lemma_first_installed(entries: Seq<DescriptorView>, installed: Seq<Seq<char>>)
    ensures
        match first_installed(entries, installed) {
            Some(i) => {
                &&& 0 <= i < entries.len()
                &&& installed.contains(entries[i].name)
                &&& forall|j: int| 0 <= j < i ==> !installed.contains(#[trigger] entries[j].name)
            },
            None => forall|j: int|
                0 <= j < entries.len() ==> !installed.contains(#[trigger] entries[j].name),
        },
{
    lemma_first_installed_from(entries, installed, 0);
}

proof fn lemma_first_installed_from(
    entries: Seq<DescriptorView>,
    installed: Seq<Seq<char>>,
    from: int,
)
    requires
        0 <= from,
    ensures
        match first_installed_from(entries, installed, from) {
            Some(i) => {
                &&& from <= i < entries.len()
                &&& installed.contains(entries[i].name)
                &&& forall|j: int| from <= j < i ==> !installed.contains(#[trigger] entries[j].name)
            },
            None => forall|j: int|
                from <= j < entries.len() ==> !installed.contains(#[trigger] entries[j].name),
        },
    decreases entries.len() - from,
{
    if from < entries.len() && !installed.contains(entries[from].name) {
        lemma_first_installed_from(entries, installed, from + 1);
    }
}

/// Selection is a function of which programs are installed: two search
/// paths that hold the same program names, in whatever order and number,
/// give the same manager.
pub proof fn lemma_select_deterministic(
    entries: Seq<DescriptorView>,
    first: Seq<Seq<char>>,
    second: Seq<Seq<char>>,
)
    requires
        forall|name: Seq<char>| first.contains(name) <==> second.contains(name),
    ensures
        first_installed(entries, first) == first_installed(entries, second),
{
    lemma_select_deterministic_from(entries, first, second, 0);
}

proof fn lemma_select_deterministic_from(
    entries: Seq<DescriptorView>,
    first: Seq<Seq<char>>,
    second: Seq<Seq<char>>,
    from: int,
)
    requires
        forall|name: Seq<char>| first.contains(name) <==> second.contains(name),
    ensures
        first_installed_from(entries, first, from) == first_installed_from(entries, second, from),
    decreases entries.len() - from,
{
    if 0 <= from < entries.len() && !first.contains(entries[from].name) {
        lemma_select_deterministic_from(entries, first, second, from + 1);
    }
}

} // verus!
