//! The daemon's built-in methods and their registration.

use vstd::prelude::*;
use crate::handler::{CapabilityContext, RequestHandler};

verus! {

/// Every built-in method, in the order the daemon registers them: the
/// core methods, then each group of handlers.
pub open spec fn daemon_methods_spec() -> Seq<Seq<char>> {
    seq![
        "ping"@,
        "shutdown"@,
        "status"@,
        "dns.resolve"@,
        "dns.list"@,
        "dns.reserved"@,
        "dns.foundation_grant"@,
        "domain.register"@,
        "domain.list"@,
        "domain.join"@,
        "blockchain.height"@,
        "blockchain.block"@,
        "blockchain.validate"@,
        "chain.lookup_cross_receipt"@,
        "network.peers"@,
        "network.connect"@,
        "identity.pubkey"@,
        "identity.rotate"@,
        "peer.pubkey"@,
        "topology.info"@,
        "topology.neighbors"@,
        "topology.routing_cost"@,
        "topology.path"@,
        "asset.list"@,
        "asset.info"@,
        "asset.register"@,
        "dashboard.deploy"@,
        "dashboard.list"@,
        "dashboard.info"@,
        "shard.fetch"@,
        "store"@,
        "gateway.transfer"@,
        "gateway.status"@,
        "gateway.list"@,
        "gateway.initiate_transfer"@,
        "share.send"@,
        "share.inbox"@,
        "share.accept"@,
        "share.reject"@,
        "message.send"@,
        "message.inbox"@,
        "message.history"@,
        "message.read"@,
        "intelligence.stats"@,
        "caesar.overview"@,
        "caesar.balance"@,
        "caesar.transactions"@,
        "caesar.rewards"@,
        "caesar.staking"@,
        "engauge.capacity"@,
        "engauge.traffic"@,
        "engauge.throttle"@,
        "engauge.routing"@,
        "trustchain.request_cert"@,
        "trustchain.status"@,
        "trustchain.certs"@,
        "trustchain.identity"@,
        "trustchain.federation"@,
        "stoq.stats"@,
        "stoq.connections"@,
        "stoq.performance"@,
        "system.check_update"@,
        "system.apply_update"@,
        "auth.create_session"@,
        "auth.list_sessions"@,
        "auth.revoke_session"@,
        "config.show"@,
        "config.get"@,
        "config.set"@,
    ]
}

/// Every built-in method, in registration order (see `daemon_methods_spec`).
pub fn daemon_methods() -> (r: Vec<&'static str>)
    ensures
        r@.map_values(|s: &str| s@) == daemon_methods_spec(),
{
    let r: Vec<&'static str> = vec![
        "ping",
        "shutdown",
        "status",
        "dns.resolve",
        "dns.list",
        "dns.reserved",
        "dns.foundation_grant",
        "domain.register",
        "domain.list",
        "domain.join",
        "blockchain.height",
        "blockchain.block",
        "blockchain.validate",
        "chain.lookup_cross_receipt",
        "network.peers",
        "network.connect",
        "identity.pubkey",
        "identity.rotate",
        "peer.pubkey",
        "topology.info",
        "topology.neighbors",
        "topology.routing_cost",
        "topology.path",
        "asset.list",
        "asset.info",
        "asset.register",
        "dashboard.deploy",
        "dashboard.list",
        "dashboard.info",
        "shard.fetch",
        "store",
        "gateway.transfer",
        "gateway.status",
        "gateway.list",
        "gateway.initiate_transfer",
        "share.send",
        "share.inbox",
        "share.accept",
        "share.reject",
        "message.send",
        "message.inbox",
        "message.history",
        "message.read",
        "intelligence.stats",
        "caesar.overview",
        "caesar.balance",
        "caesar.transactions",
        "caesar.rewards",
        "caesar.staking",
        "engauge.capacity",
        "engauge.traffic",
        "engauge.throttle",
        "engauge.routing",
        "trustchain.request_cert",
        "trustchain.status",
        "trustchain.certs",
        "trustchain.identity",
        "trustchain.federation",
        "stoq.stats",
        "stoq.connections",
        "stoq.performance",
        "system.check_update",
        "system.apply_update",
        "auth.create_session",
        "auth.list_sessions",
        "auth.revoke_session",
        "config.show",
        "config.get",
        "config.set",
    ];
    assert(r@.map_values(|s: &str| s@) =~= daemon_methods_spec());
    r
}

/// The registry after registering `methods` in order into `names`: each
/// name not yet present is appended.
pub open spec fn register_each(names: Seq<Seq<char>>, methods: Seq<Seq<char>>) -> Seq<Seq<char>>
    decreases methods.len(),
{
    if methods.len() == 0 {
        names
    } else {
        let before = register_each(names, methods.drop_last());
        if before.contains(methods.last()) {
            before
        } else {
            before.push(methods.last())
        }
    }
}

/// Registering keeps what was registered and adds every method, and
/// nothing else.
pub proof fn lemma_register_each(names: Seq<Seq<char>>, methods: Seq<Seq<char>>)
    ensures
        forall|m: Seq<char>| #[trigger] names.contains(m) ==> register_each(names, methods).contains(m),
        forall|m: Seq<char>| #[trigger] methods.contains(m) ==> register_each(names, methods).contains(m),
        forall|m: Seq<char>| #[trigger]
            register_each(names, methods).contains(m) ==> names.contains(m) || methods.contains(m),
    decreases methods.len(),
{
    if methods.len() > 0 {
        let init = methods.drop_last();
        let last = methods.last();
        lemma_register_each(names, init);
        let before = register_each(names, init);
        let after = register_each(names, methods);
        assert forall|m: Seq<char>| #[trigger] before.contains(m) implies after.contains(m) by {
            let k = choose|k: int| 0 <= k < before.len() && before[k] == m;
            assert(after[k] == m);
        }
        assert(after.contains(last)) by {
            if !before.contains(last) {
                assert(after[after.len() - 1] == last);
            }
        }
        assert forall|m: Seq<char>| #[trigger] methods.contains(m) implies after.contains(m) by {
            let k = choose|k: int| 0 <= k < methods.len() && methods[k] == m;
            if k < methods.len() - 1 {
                assert(init[k] == m);
                assert(init.contains(m));
            }
        }
        assert forall|m: Seq<char>| #[trigger] after.contains(m) implies names.contains(m)
            || methods.contains(m) by {
            if before.contains(m) {
                if init.contains(m) {
                    let k = choose|k: int| 0 <= k < init.len() && init[k] == m;
                    assert(methods[k] == m);
                }
            } else {
                let k = choose|k: int| 0 <= k < after.len() && after[k] == m;
                assert(k == after.len() - 1);
                assert(methods[methods.len() - 1] == m);
            }
        }
    }
}

/// Register every built-in method, then, when the daemon issues capability
/// tokens, install enforcement with `ctx`.
pub fn register_all(handler: &mut RequestHandler, ctx: Option<CapabilityContext>)
    requires
        old(handler).well_formed(),
    ensures
        final(handler).well_formed(),
        final(handler).registered() == register_each(old(handler).registered(), daemon_methods_spec()),
        final(handler).enforcing() == (old(handler).enforcing() || ctx is Some),
{
    let methods = daemon_methods();
    let ghost ms = daemon_methods_spec();
    let ghost start = handler.registered();
    let mut i: usize = 0;
    proof {
        assert(ms.take(0) =~= Seq::<Seq<char>>::empty());
    }
    while i < methods.len()
        invariant
            i <= methods@.len(),
            methods@.map_values(|s: &str| s@) == ms,
            handler.well_formed(),
            handler.enforcing() == old(handler).enforcing(),
            start == old(handler).registered(),
            handler.registered() == register_each(start, ms.take(i as int)),
        decreases methods@.len() - i,
    {
        proof {
            assert(ms.take(i + 1).drop_last() =~= ms.take(i as int));
            assert(ms[i as int] == methods@[i as int]@);
        }
        handler.register(methods[i]);
        i = i + 1;
    }
    assert(ms.take(methods@.len() as int) =~= ms);
    match ctx {
        Some(c) => handler.set_capability_context(c),
        None => {},
    }
}

/// After `register_all`, every built-in method is registered, whatever was
/// registered before, and nothing but those and the earlier ones is.
pub proof fn law_register_all_registers_every_method(before: Seq<Seq<char>>, m: Seq<char>)
    ensures
        daemon_methods_spec().contains(m) ==> register_each(before, daemon_methods_spec()).contains(m),
        register_each(before, daemon_methods_spec()).contains(m) ==> before.contains(m)
            || daemon_methods_spec().contains(m),
{
    lemma_register_each(before, daemon_methods_spec());
}

} // verus!
