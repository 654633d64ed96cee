//! Properties that hold across the builders and reconcile decisions.

use vstd::prelude::*;
use crate::api::{pairs_view, DdsConnection, LrgsCluster, Timestamp};
use crate::lrgs_config::{config_hash_text, secret_user, user_secret_error, UserSecretData};
use crate::password_file::roles_field;
use crate::text::{lemma_join_split_commas, lemma_split_commas_nonempty};
use vstd::utf8::decode_utf8;
use crate::objects::{ConfigMap, Job, OwnerReference};
use crate::reconcile::{inputs_hash, lrgs_plan_matches, LrgsInputs, LrgsPlan};
use crate::recv_conf::{dds_recv_entries, declared_dds_entries, peer_entries};
use crate::schema::{job_matches, schema_config_map_matches, MigrationJob};

verus! {

/// Every object that an LRGS reconcile applies is owned by the cluster's
/// owner reference.
pub proof fn lemma_lrgs_children_owned(
    p: LrgsPlan,
    cluster: LrgsCluster,
    owner_ref: OwnerReference,
    script: Seq<char>,
    inputs: LrgsInputs,
    now: Timestamp,
)
    requires
        lrgs_plan_matches(p, cluster, owner_ref, script, inputs, now),
    ensures
        p.config_secret.metadata.owned_by(owner_ref),
        p.script_config_map.metadata.owned_by(owner_ref),
        p.statefulset.metadata.owned_by(owner_ref),
        p.statefulset.template.metadata.owned_by(owner_ref),
        forall|i: int| 0 <= i < p.services@.len() ==> (#[trigger] p.services@[i]).metadata.owned_by(owner_ref),
        forall|i: int|
            0 <= i < p.managed_users@.len() ==> (#[trigger] p.managed_users@[i]).metadata.owned_by(
                owner_ref,
            ),
{
    assert forall|i: int| 0 <= i < p.services@.len() implies (#[trigger] p.services@[i]).metadata.owned_by(
        owner_ref,
    ) by {
        if i == 0 {
        } else {
            assert(i == 1);
        }
    }
}

/// The migration job and its script config map are owned by the
/// database's owner reference.
pub proof fn lemma_migration_children_owned(config_map: ConfigMap, job: Job, m: MigrationJob, script: Seq<char>)
    requires
        schema_config_map_matches(config_map, m.namespace@, m.owner_ref, script),
        job_matches(job, m),
    ensures
        config_map.metadata.owned_by(m.owner_ref),
        job.metadata.owned_by(m.owner_ref),
        job.template.metadata.owned_by(m.owner_ref),
{
}

/// Two reconciles of the same cluster over the same namespace contents
/// build the same rollout annotations, so a reconcile that changes nothing
/// rolls nothing; a recorded status carries that content hash, and a
/// cluster whose recorded checksum already equals it gets no new status.
pub proof fn lemma_noop_reconcile_stable(
    first: LrgsPlan,
    second: LrgsPlan,
    cluster: LrgsCluster,
    owner_ref: OwnerReference,
    script: Seq<char>,
    inputs: LrgsInputs,
    now1: Timestamp,
    now2: Timestamp,
)
    requires
        lrgs_plan_matches(first, cluster, owner_ref, script, inputs, now1),
        lrgs_plan_matches(second, cluster, owner_ref, script, inputs, now2),
    ensures
        pairs_view(first.statefulset.template.metadata.annotations@) == pairs_view(
            second.statefulset.template.metadata.annotations@,
        ),
        pairs_view(first.statefulset.metadata.annotations@) == pairs_view(
            second.statefulset.metadata.annotations@,
        ),
        first.status matches Some(st) ==> st.checksum@ == inputs_hash(inputs),
        cluster.status matches Some(st) && st.checksum@ == inputs_hash(inputs) ==> second.status is None,
{
}

/// The content hash depends on the three documents alone, in their order.
pub proof fn lemma_config_hash_deterministic(
    pw1: Seq<char>,
    dds1: Seq<char>,
    drgs1: Seq<char>,
    pw2: Seq<char>,
    dds2: Seq<char>,
    drgs2: Seq<char>,
)
    requires
        pw1 == pw2,
        dds1 == dds2,
        drgs1 == drgs2,
    ensures
        config_hash_text(pw1, dds1, drgs1) == config_hash_text(pw2, dds2, drgs2),
{
}

/// Without peers the DDS-receive document holds only the declared
/// connections, numbered from 0.
pub proof fn lemma_no_peers_only_declared(conns: Seq<DdsConnection>)
    ensures
        dds_recv_entries(seq![], conns) == declared_dds_entries(0, conns),
{
    assert(peer_entries(seq![]) =~= seq![]);
    assert(dds_recv_entries(seq![], conns) =~= declared_dds_entries(0, conns));
}

/// The roles column of a user read from a secret with nonempty `roles` is
/// that text exactly; with empty or no `roles` it is `none`.
pub proof fn lemma_roles_column_from_secret(d: UserSecretData)
    requires
        user_secret_error(d) is None,
    ensures
        d.roles matches Some(r) ==> (decode_utf8(r@).len() > 0 ==> roles_field(
            secret_user(d).roles,
        ) == decode_utf8(r@)),
        (d.roles matches Some(r) ==> decode_utf8(r@).len() == 0) ==> roles_field(
            secret_user(d).roles,
        ) == "none"@,
{
    reveal_strlit("none");
    if d.roles is Some {
        let text = decode_utf8(d.roles->Some_0@);
        lemma_split_commas_nonempty(text);
        lemma_join_split_commas(text);
    }
}

} // verus!
