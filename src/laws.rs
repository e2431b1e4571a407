//! Properties of registration and dispatch over the abstract store.
use vstd::prelude::*;
use crate::dispatch::{resolved, Invocation, OpenError};
use crate::placeholder::substituted;
use crate::registration::{
    after_register_host, after_register_protocol, after_unregister_host,
    after_unregister_protocol,
};
use crate::store::{fold_case, StoreModel, TemplateModel};

verus! {

/// Registering a protocol twice with the same arguments leaves the store as
/// registering it once does.
pub proof fn lemma_register_protocol_idempotent(
    m: StoreModel,
    protocol: Seq<char>,
    exe: Seq<char>,
    extra: Option<Seq<char>>,
)
    ensures
        after_register_protocol(after_register_protocol(m, protocol, exe, extra), protocol, exe, extra)
            == after_register_protocol(m, protocol, exe, extra),
{
    let once = after_register_protocol(m, protocol, exe, extra);
    let twice = after_register_protocol(once, protocol, exe, extra);
    assert(twice.protocols =~= once.protocols);
}

/// Registering a host twice with the same arguments leaves the store as
/// registering it once does.
pub proof fn lemma_register_host_idempotent(
    m: StoreModel,
    protocol: Seq<char>,
    hostname: Seq<char>,
    template: TemplateModel,
    exe: Seq<char>,
    extra: Option<Seq<char>>,
)
    ensures
        after_register_host(
            after_register_host(m, protocol, hostname, template, exe, extra),
            protocol,
            hostname,
            template,
            exe,
            extra,
        ) == after_register_host(m, protocol, hostname, template, exe, extra),
{
    let once = after_register_host(m, protocol, hostname, template, exe, extra);
    let twice = after_register_host(once, protocol, hostname, template, exe, extra);
    assert(twice.protocols =~= once.protocols);
    assert(twice.hosts[fold_case(protocol)] =~= once.hosts[fold_case(protocol)]);
    assert(twice.hosts =~= once.hosts);
}

/// After a host is registered with a non-empty template, resolving that host
/// of that protocol runs the template's executable with the placeholder in
/// every argument replaced by the selector.
pub proof fn lemma_registered_host_resolves(
    m: StoreModel,
    protocol: Seq<char>,
    hostname: Seq<char>,
    template: TemplateModel,
    exe: Seq<char>,
    extra: Option<Seq<char>>,
    selector: Seq<char>,
    url: Seq<char>,
    r: Result<Invocation, OpenError>,
)
    requires
        template.len() > 0,
        resolved(
            after_register_host(m, protocol, hostname, template, exe, extra),
            protocol,
            hostname,
            selector,
            url,
            r,
        ),
    ensures
        r matches Ok(inv) && inv.program@ == template[0] && inv.args.deep_view() == substituted(
            template.skip(1),
            selector,
        ),
{
}

/// Unregistering the only host of a protocol removes the protocol's subtree
/// and its configuration subtree.
pub proof fn lemma_last_host_cascades(m: StoreModel, protocol: Seq<char>, hostname: Seq<char>)
    requires
        m.hosts.contains_key(fold_case(protocol)),
        m.hosts[fold_case(protocol)].dom() == set![hostname],
    ensures
        !after_unregister_host(m, protocol, hostname).protocols.contains_key(fold_case(protocol)),
        !after_unregister_host(m, protocol, hostname).hosts.contains_key(fold_case(protocol)),
{
    assert(m.hosts[fold_case(protocol)].remove(hostname).dom() =~= Set::<Seq<char>>::empty());
}

/// Unregistering one of two hosts of a protocol keeps the protocol
/// registered, with the other host alone.
pub proof fn lemma_other_host_survives(
    m: StoreModel,
    protocol: Seq<char>,
    gone: Seq<char>,
    kept: Seq<char>,
)
    requires
        gone != kept,
        m.hosts.contains_key(fold_case(protocol)),
        m.hosts[fold_case(protocol)].dom() == set![gone, kept],
    ensures
        after_unregister_host(m, protocol, gone).protocols == m.protocols,
        after_unregister_host(m, protocol, gone).hosts.contains_key(fold_case(protocol)),
        after_unregister_host(m, protocol, gone).hosts[fold_case(protocol)].dom() == set![kept],
        after_unregister_host(m, protocol, gone).hosts[fold_case(protocol)][kept]
            == m.hosts[fold_case(protocol)][kept],
{
    let rest = m.hosts[fold_case(protocol)].remove(gone);
    assert(rest.dom() =~= set![kept]);
    assert(rest.dom().contains(kept));
}

/// Unregistering a protocol that was never registered, or a host of it,
/// changes nothing.
pub proof fn lemma_absent_protocol_unchanged(m: StoreModel, protocol: Seq<char>, hostname: Seq<char>)
    requires
        !m.protocols.contains_key(fold_case(protocol)),
        !m.hosts.contains_key(fold_case(protocol)),
    ensures
        after_unregister_protocol(m, protocol) == m,
        after_unregister_host(m, protocol, hostname) == m,
{
    assert(m.protocols.remove(fold_case(protocol)) =~= m.protocols);
    assert(m.hosts.remove(fold_case(protocol)) =~= m.hosts);
}

} // verus!
