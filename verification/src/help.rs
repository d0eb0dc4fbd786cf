//! Remediation texts shown next to a failure.

use vstd::prelude::*;
use crate::catalog::{ManagerKind, PackageManagerDescriptor, descriptor_of, priority, DescriptorView};
use crate::text::same_text;

verus! {

/// A help topic.
#[derive(Clone, Copy, Debug)]
pub enum Help {
    /// A repository could not be cloned or updated.
    Git,
    /// Something that needs the network failed.
    Network,
    /// The package manager of this name failed.
    PackageManager(&'static str),
}

/// Mathematical model of a help topic.
pub enum HelpView {
    Git,
    Network,
    PackageManager(Seq<char>),
}

impl View for Help {
    type V = HelpView;

    open spec fn view(&self) -> HelpView {
        match *self {
            Help::Git => HelpView::Git,
            Help::Network => HelpView::Network,
            Help::PackageManager(name) => HelpView::PackageManager(name@),
        }
    }
}

/// The closing words of every remediation text.
pub open spec fn contact_text() -> Seq<char> {
    "if the problem persists please contact us."@
}

/// The generic remediation text for anything that needs the network.
pub open spec fn network_text() -> Seq<char> {
    "Please confirm the network settings and try again, "@ + contact_text()
}

/// The remediation text for a failed clone or pull.
pub open spec fn git_text() -> Seq<char> {
    "Check your network settings or delete the repository and try again, "@ + contact_text()
}

/// The remediation text for a known package manager: it names the command
/// that refreshes the manager's index.
pub open spec fn manager_text(d: DescriptorView) -> Seq<char>
    recommends
        d.update is Some,
{
    "Run `"@ + d.name + " "@ + d.update->0 + "` as root and try again, "@ + contact_text()
}

/// The first known manager of the given name, searching `kinds` from `from` onwards.
pub open spec fn lookup_from(kinds: Seq<ManagerKind>, name: Seq<char>, from: int) -> Option<
    ManagerKind,
>
    decreases kinds.len() - from,
{
    if from < 0 || from >= kinds.len() {
        None
    } else if descriptor_of(kinds[from]).name == name {
        Some(kinds[from])
    } else {
        lookup_from(kinds, name, from + 1)
    }
}

/// The known manager of the given name, if there is one.
pub open spec fn lookup(name: Seq<char>) -> Option<ManagerKind> {
    lookup_from(priority(), name, 0)
}

impl HelpView {
    /// The remediation text of a topic. A package manager that is not known
    /// gets the generic network text.
    pub open spec fn info(self) -> Seq<char> {
        match self {
            HelpView::Git => git_text(),
            HelpView::Network => network_text(),
            HelpView::PackageManager(name) => match lookup(name) {
                Some(kind) => manager_text(descriptor_of(kind)),
                None => network_text(),
            },
        }
    }

    /// The topic as it is shown: `help: ` and the remediation text.
    pub open spec fn text(self) -> Seq<char> {
        "help: "@ + self.info()
    }
}

fn find_kind(name: &str) -> (found: Option<ManagerKind>)
    ensures
        found == lookup(name@),
{
    let kinds = ManagerKind::all();
    let mut i: usize = 0;
    while i < kinds.len()
        invariant
            i <= kinds.len(),
            kinds@ == priority(),
            lookup(name@) == lookup_from(priority(), name@, i as int),
        decreases kinds.len() - i,
    {
        let d: PackageManagerDescriptor = kinds[i].descriptor();
        if same_text(d.name, name) {
            return Some(kinds[i]);
        }
        i = i + 1;
    }
    None
}

fn with_contact(lead: &str) -> (out: String)
    ensures
        out@ == lead@ + contact_text(),
{
    let mut out = String::from_str(lead);
    out.append("if the problem persists please contact us.");
    out
}

impl Help {
    /// The remediation text of this topic.
    pub fn info(&self) -> (out: String)
        ensures
            out@ == self@.info(),
    {
        match self {
            Help::Git => with_contact(
                "Check your network settings or delete the repository and try again, ",
            ),
            Help::Network => with_contact("Please confirm the network settings and try again, "),
            Help::PackageManager(name) => match find_kind(name) {
                Some(kind) => {
                    let d = kind.descriptor();
                    let mut lead = String::from_str("Run `");
                    lead.append(d.name);
                    lead.append(" ");
                    match d.update {
                        Some(update) => lead.append(update),
                        None => {},
                    }
                    lead.append("` as root and try again, ");
                    let out = with_contact(lead.as_str());
                    assert(out@ =~= manager_text(descriptor_of(kind)));
                    out
                },
                None => with_contact("Please confirm the network settings and try again, "),
            },
        }
    }

    /// The topic as it is shown: `help: ` and the remediation text.
    pub fn to_string(&self) -> (out: String)
        ensures
            out@ == self@.text(),
    {
        let mut out = String::from_str("help: ");
        let info = self.info();
        out.append(info.as_str());
        out
    }
}

} // verus!
