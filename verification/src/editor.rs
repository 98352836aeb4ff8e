//! The state behind the operator's panel: the list of named targets, the
//! one that is switched on, and the update that this state calls for.
//!
//! The panel draws this state and calls back into it when a control is
//! operated. Every change that bears on the proxy ends in
//! [`App::update_backend`], which checks the update before it is queued and
//! keeps the text of a rejection for the panel to show.

use crate::config::{rejection_message, ConfigView, ForwardTarget, ProxyConfig};
use crate::handle::DynamicProxy;
use vstd::prelude::*;

verus! {

/// The text shown when a target is saved that the list holds already.
pub open spec fn duplicate_message() -> Seq<char> {
    "Port Already exist"@
}

/// A named target of the list.
#[derive(Debug)]
pub struct ForwardPort {
    pub target: ForwardTarget,
    pub name: String,
    /// What was wrong with this entry when it was last saved.
    pub error: Option<String>,
}

impl Clone for ForwardPort {
    fn clone(&self) -> (copy: Self)
        ensures
            copy == *self,
    {
        ForwardPort {
            target: self.target.clone(),
            name: self.name.clone(),
            error: match &self.error {
                Some(text) => Some(text.clone()),
                None => None,
            },
        }
    }
}

impl Default for ForwardPort {
    /// Port 8080 of this machine, under the name `New Port`.
    fn default() -> (entry: Self)
        ensures
            entry.target@.is_loopback(),
            entry.target.port == 8080,
            entry.name@ == "New Port"@,
            entry.error is None,
    {
        ForwardPort {
            target: ForwardTarget { domain: "localhost".to_owned(), port: 8080 },
            name: "New Port".to_owned(),
            error: None,
        }
    }
}

impl ForwardPort {
    /// Two entries are the same entry if they forward to the same host and
    /// port, whatever their names.
    pub fn same_target(&self, other: &ForwardPort) -> (same: bool)
        ensures
            same == (self.target@ == other.target@),
    {
        self.target.domain == other.target.domain && self.target.port == other.target.port
    }
}

/// The page that the panel shows.
#[derive(Debug)]
pub enum Pages {
    /// The list of targets.
    List,
    /// The form for a new entry.
    Creation(ForwardPort),
    /// The form for the entry at an index of the list.
    Edit(usize, ForwardPort),
}

impl Default for Pages {
    fn default() -> (page: Self)
        ensures
            page is List,
    {
        Pages::List
    }
}

/// `index` is the first place in `ports` that holds an entry with the
/// target of `entry`.
pub open spec fn is_first_position(ports: Seq<ForwardPort>, entry: ForwardPort, index: int) -> bool {
    &&& 0 <= index < ports.len()
    &&& ports[index].target@ == entry.target@
    &&& forall|j: int| 0 <= j < index ==> (#[trigger] ports[j]).target@ != entry.target@
}

/// No entry of `ports` has the target of `entry`.
pub open spec fn is_absent(ports: Seq<ForwardPort>, entry: ForwardPort) -> bool {
    forall|j: int| 0 <= j < ports.len() ==> (#[trigger] ports[j]).target@ != entry.target@
}

/// No two entries of `ports` have the same target.
pub open spec fn is_duplicate_free(ports: Seq<ForwardPort>) -> bool {
    forall|i: int, j: int|
        0 <= i < j < ports.len() ==> (#[trigger] ports[i]).target@ != (#[trigger] ports[j]).target@
}

/// The first place in `ports` that holds an entry with the target of
/// `entry`.
pub fn position(ports: &Vec<ForwardPort>, entry: &ForwardPort) -> (found: Option<usize>)
    ensures
        found is None <==> is_absent(ports@, *entry),
        found is Some ==> is_first_position(ports@, *entry, found->0 as int),
{
    let mut index: usize = 0;
    while index < ports.len()
        invariant
            index <= ports.len(),
            forall|j: int| 0 <= j < index ==> (#[trigger] ports@[j]).target@ != entry.target@,
        decreases ports.len() - index,
    {
        if ports[index].same_target(entry) {
            return Some(index);
        }
        index = index + 1;
    }
    None
}

/// The state behind the panel.
pub struct App {
    /// The loopback port to listen on.
    pub listen_port: u16,
    /// Whether the operator wants the proxy on.
    pub is_enabled: bool,
    /// The named targets. Saving and removing keep the list free of entries
    /// with the same target.
    pub forward_ports: Vec<ForwardPort>,
    /// The entry that traffic is to be forwarded to.
    pub active_forward_port: Option<ForwardPort>,
    pub active_page: Pages,
    /// The handle through which updates are queued.
    pub proxy_handle: Option<DynamicProxy>,
    /// The text of the last rejection, until an update is accepted.
    pub error: Option<String>,
}

impl Default for App {
    /// An empty list, nothing switched on, listening port 0.
    fn default() -> (app: Self)
        ensures
            app.listen_port == 0,
            !app.is_enabled,
            app.forward_ports@.len() == 0,
            app.active_forward_port is None,
            app.active_page is List,
            app.proxy_handle is None,
            app.error is None,
    {
        App {
            listen_port: 0,
            is_enabled: false,
            forward_ports: Vec::new(),
            active_forward_port: None,
            active_page: Pages::List,
            proxy_handle: None,
            error: None,
        }
    }
}

impl App {
    /// The update that the state calls for: the proxy is on if the operator
    /// wants it on and an entry is active, and it then forwards to that
    /// entry's target.
    pub open spec fn wanted(self) -> ConfigView {
        if self.is_enabled && self.active_forward_port is Some {
            ConfigView::Enabled {
                listen_port: self.listen_port,
                target: self.active_forward_port->0.target@,
            }
        } else {
            ConfigView::Disabled
        }
    }

    /// The state that a panel starts from when nothing was saved before: as
    /// the default, but listening on port 8080.
    pub fn init_state() -> (app: Self)
        ensures
            app.listen_port == 8080,
            !app.is_enabled,
            app.forward_ports@.len() == 0,
            app.active_forward_port is None,
            app.active_page is List,
            app.proxy_handle is None,
            app.error is None,
    {
        let mut app = App::default();
        app.listen_port = 8080;
        app
    }

    /// The update that the state calls for.
    pub fn next_update(&self) -> (config: ProxyConfig)
        ensures
            config@ == self.wanted(),
    {
        if self.is_enabled {
            match &self.active_forward_port {
                Some(entry) => ProxyConfig(Some((self.listen_port, entry.target.clone()))),
                None => ProxyConfig(None),
            }
        } else {
            ProxyConfig(None)
        }
    }

    /// Brings the proxy in line with the state. A valid update clears the
    /// error and is queued through the handle. An update that would forward
    /// to the listening port is not queued: its rejection is kept as the
    /// error and the proxy is marked as switched off.
    ///
    /// The handle must be there when there is something to queue.
    pub fn update_backend(&mut self)
        requires
            old(self).wanted().is_valid() ==> old(self).proxy_handle is Some,
        ensures
            final(self).listen_port == old(self).listen_port,
            final(self).forward_ports == old(self).forward_ports,
            final(self).active_forward_port == old(self).active_forward_port,
            final(self).active_page == old(self).active_page,
            final(self).proxy_handle == old(self).proxy_handle,
            old(self).wanted().is_valid() ==> final(self).error is None && final(self).is_enabled
                == old(self).is_enabled,
            !old(self).wanted().is_valid() ==> !final(self).is_enabled && final(self).error is Some
                && final(self).error->0@ == rejection_message(),
    {
        let config = self.next_update();
        match config.validate() {
            Ok(_) => {
                self.error = None;
                match &self.proxy_handle {
                    Some(backend) => {
                        let _ = backend.update(config);
                    },
                    None => vstd::pervasive::unreached(),
                }
            },
            Err(text) => {
                self.error = Some(text);
                self.is_enabled = false;
            },
        }
    }

    /// What the save button of a form does. The entry of the form, its
    /// error cleared, goes into the list: a new entry at the end, an edited
    /// one in the place it came from, and the list is shown again. If an
    /// entry elsewhere in the list has the same target already, the list
    /// stays as it is and the form stays open with an error. On the list
    /// page nothing happens.
    ///
    /// An edited entry must come from a place that the list has.
    pub fn save(&mut self)
        requires
            old(self).active_page matches Pages::Edit(index, _) ==> index < old(self).forward_ports@.len(),
        ensures
            final(self).listen_port == old(self).listen_port,
            final(self).is_enabled == old(self).is_enabled,
            final(self).active_forward_port == old(self).active_forward_port,
            final(self).proxy_handle == old(self).proxy_handle,
            final(self).error == old(self).error,
            is_duplicate_free(old(self).forward_ports@) ==> is_duplicate_free(final(self).forward_ports@),
            match old(self).active_page {
                Pages::List => final(self).active_page is List && final(self).forward_ports@ == old(self).forward_ports@,
                Pages::Creation(entry) => {
                    if is_absent(old(self).forward_ports@, entry) {
                        &&& final(self).active_page is List
                        &&& final(self).forward_ports@ == old(self).forward_ports@.push(
                            ForwardPort { error: None, ..entry },
                        )
                    } else {
                        &&& final(self).forward_ports@ == old(self).forward_ports@
                        &&& final(self).active_page matches Pages::Creation(kept)
                        &&& kept.target == entry.target
                        &&& kept.name == entry.name
                        &&& kept.error is Some
                        &&& kept.error->0@ == duplicate_message()
                    }
                },
                Pages::Edit(index, entry) => {
                    if is_absent(old(self).forward_ports@, entry) || is_first_position(
                        old(self).forward_ports@,
                        entry,
                        index as int,
                    ) {
                        &&& final(self).active_page is List
                        &&& final(self).forward_ports@ == old(self).forward_ports@.update(
                            index as int,
                            ForwardPort { error: None, ..entry },
                        )
                    } else {
                        &&& final(self).forward_ports@ == old(self).forward_ports@
                        &&& final(self).active_page matches Pages::Edit(kept_index, kept)
                        &&& kept_index == index
                        &&& kept.target == entry.target
                        &&& kept.name == entry.name
                        &&& kept.error is Some
                        &&& kept.error->0@ == duplicate_message()
                    }
                },
            },
    {
        let mut page = Pages::List;
        core::mem::swap(&mut self.active_page, &mut page);
        match page {
            Pages::List => {},
            Pages::Creation(entry) => {
                let found = position(&self.forward_ports, &entry);
                let ForwardPort { target, name, error: _ } = entry;
                if found.is_none() {
                    self.forward_ports.push(ForwardPort { target, name, error: None });
                } else {
                    self.active_page = Pages::Creation(
                        ForwardPort { target, name, error: Some("Port Already exist".to_owned()) },
                    );
                }
            },
            Pages::Edit(index, entry) => {
                let found = position(&self.forward_ports, &entry);
                let ForwardPort { target, name, error: _ } = entry;
                let taken = match found {
                    Some(existing) => existing != index,
                    None => false,
                };
                if taken {
                    self.active_page = Pages::Edit(
                        index,
                        ForwardPort { target, name, error: Some("Port Already exist".to_owned()) },
                    );
                } else {
                    self.forward_ports.set(index, ForwardPort { target, name, error: None });
                }
            },
        }
    }

    /// Takes out of the list every entry that has the target of `entry`, and
    /// leaves the others in their order.
    pub fn remove(&mut self, entry: &ForwardPort)
        ensures
            final(self).listen_port == old(self).listen_port,
            final(self).is_enabled == old(self).is_enabled,
            final(self).active_forward_port == old(self).active_forward_port,
            final(self).active_page == old(self).active_page,
            final(self).proxy_handle == old(self).proxy_handle,
            final(self).error == old(self).error,
            final(self).forward_ports@ == old(self).forward_ports@.filter(
                |other: ForwardPort| other.target@ != entry.target@,
            ),
            is_absent(final(self).forward_ports@, *entry),
            is_duplicate_free(old(self).forward_ports@) ==> is_duplicate_free(final(self).forward_ports@),
    {
        let ghost keep = |other: ForwardPort| other.target@ != entry.target@;
        let ghost before = self.forward_ports@;
        let mut index: usize = 0;
        proof {
            assert(self.forward_ports@.subrange(0, 0) =~= Seq::<ForwardPort>::empty());
            assert(self.forward_ports@.subrange(0, self.forward_ports@.len() as int) =~= before);
        }
        while index < self.forward_ports.len()
            invariant
                index <= self.forward_ports@.len(),
                self.listen_port == old(self).listen_port,
                self.is_enabled == old(self).is_enabled,
                self.active_forward_port == old(self).active_forward_port,
                self.active_page == old(self).active_page,
                self.proxy_handle == old(self).proxy_handle,
                self.error == old(self).error,
                keep == (|other: ForwardPort| other.target@ != entry.target@),
                before == old(self).forward_ports@,
                is_duplicate_free(before) ==> is_duplicate_free(self.forward_ports@),
                before.filter(keep) == self.forward_ports@.subrange(0, index as int)
                    + self.forward_ports@.subrange(
                    index as int,
                    self.forward_ports@.len() as int,
                ).filter(keep),
            decreases self.forward_ports@.len() - index,
        {
            let ghost current = self.forward_ports@;
            let ghost rest = current.subrange(index as int, current.len() as int);
            let ghost tail = current.subrange(index as int + 1, current.len() as int);
            proof {
                assert(rest =~= seq![current[index as int]] + tail);
                Seq::filter_distributes_over_add(seq![current[index as int]], tail, keep);
                reveal_with_fuel(Seq::filter, 2);
                assert(seq![current[index as int]].drop_last() =~= Seq::<ForwardPort>::empty());
            }
            if self.forward_ports[index].same_target(entry) {
                self.forward_ports.remove(index);
                proof {
                    let shorter = self.forward_ports@;
                    assert(is_duplicate_free(current) ==> is_duplicate_free(shorter)) by {
                        if is_duplicate_free(current) {
                            assert forall|i: int, j: int| 0 <= i < j < shorter.len() implies (
                            #[trigger] shorter[i]).target@ != (#[trigger] shorter[j]).target@ by {
                                let from_i = if i < index { i } else { i + 1 };
                                let from_j = if j < index { j } else { j + 1 };
                                assert(shorter[i] == current[from_i]);
                                assert(shorter[j] == current[from_j]);
                            }
                        }
                    }
                    assert(seq![current[index as int]].filter(keep) =~= Seq::<ForwardPort>::empty());
                    assert(self.forward_ports@.subrange(0, index as int) =~= current.subrange(
                        0,
                        index as int,
                    ));
                    assert(self.forward_ports@.subrange(
                        index as int,
                        self.forward_ports@.len() as int,
                    ) =~= tail);
                    assert(rest.filter(keep) =~= tail.filter(keep));
                }
            } else {
                proof {
                    assert(seq![current[index as int]].filter(keep) =~= seq![current[index as int]]);
                    assert(current.subrange(0, index as int + 1) =~= current.subrange(
                        0,
                        index as int,
                    ) + seq![current[index as int]]);
                    assert(before.filter(keep) =~= current.subrange(0, index as int + 1)
                        + tail.filter(keep));
                }
                index = index + 1;
            }
        }
        proof {
            assert(self.forward_ports@.subrange(
                index as int,
                self.forward_ports@.len() as int,
            ) =~= Seq::<ForwardPort>::empty());
            assert(self.forward_ports@.subrange(0, index as int) =~= self.forward_ports@);
        }
    }

    /// True iff `entry` is the active one: the active entry has its target.
    pub fn is_active(&self, entry: &ForwardPort) -> (active: bool)
        ensures
            active == (self.active_forward_port is Some && self.active_forward_port->0.target@
                == entry.target@),
    {
        match &self.active_forward_port {
            Some(current) => current.same_target(entry),
            None => false,
        }
    }

    /// The state after the switch of `entry` was operated, before the proxy
    /// is brought in line: an active entry is no longer active, another one
    /// becomes the active entry.
    pub open spec fn with_port_toggled(self, entry: ForwardPort) -> App {
        if self.active_forward_port is Some && self.active_forward_port->0.target@ == entry.target@ {
            App { active_forward_port: None, ..self }
        } else {
            App { active_forward_port: Some(entry), ..self }
        }
    }

    /// What the switch of a list entry does: it makes `entry` the active
    /// one, or, if it is that already, leaves none active. Then the proxy is
    /// brought in line with the new state.
    ///
    /// The handle must be there when there is something to queue.
    pub fn toggle_port(&mut self, entry: &ForwardPort)
        requires
            old(self).with_port_toggled(*entry).wanted().is_valid() ==> old(self).proxy_handle
                is Some,
        ensures
            final(self).listen_port == old(self).listen_port,
            final(self).forward_ports == old(self).forward_ports,
            final(self).active_forward_port == old(self).with_port_toggled(*entry).active_forward_port,
            final(self).active_page == old(self).active_page,
            final(self).proxy_handle == old(self).proxy_handle,
            old(self).with_port_toggled(*entry).wanted().is_valid() ==> final(self).error is None
                && final(self).is_enabled == old(self).is_enabled,
            !old(self).with_port_toggled(*entry).wanted().is_valid() ==> !final(self).is_enabled
                && final(self).error is Some && final(self).error->0@ == rejection_message(),
    {
        if self.is_active(entry) {
            self.active_forward_port = None;
        } else {
            self.active_forward_port = Some(entry.clone());
        }
        self.update_backend();
    }

    /// What the main switch does: it turns the operator's wish around and
    /// brings the proxy in line with it.
    ///
    /// The handle must be there when there is something to queue.
    pub fn toggle_enabled(&mut self)
        requires
            (App { is_enabled: !old(self).is_enabled, ..*old(self) }).wanted().is_valid() ==> old(self).proxy_handle is Some,
        ensures
            final(self).listen_port == old(self).listen_port,
            final(self).forward_ports == old(self).forward_ports,
            final(self).active_forward_port == old(self).active_forward_port,
            final(self).active_page == old(self).active_page,
            final(self).proxy_handle == old(self).proxy_handle,
            (App { is_enabled: !old(self).is_enabled, ..*old(self) }).wanted().is_valid()
                ==> final(self).error is None && final(self).is_enabled == !old(self).is_enabled,
            !(App { is_enabled: !old(self).is_enabled, ..*old(self) }).wanted().is_valid()
                ==> !final(self).is_enabled && final(self).error is Some && final(self).error->0@
                == rejection_message(),
    {
        self.is_enabled = !self.is_enabled;
        self.update_backend();
    }
}

} // verus!
