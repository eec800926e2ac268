use crate::activation::{activation, activation_for, criticality, Activation, ServiceKind, TaskKind};
use crate::author::Author;
use crate::chain::ChainSelector;
use crate::config::{Collaborators, Configuration, FinalityConfig};
use crate::discovery::Discovery;
use crate::error::{ImportError, ServiceError};
use crate::finality::{FinalityLinkage, ProofRequestBuilder, Voter};
use crate::inherents::{new_registry, share_registry};
use crate::node::{Revalidation, Service, TransactionPool};
use crate::pipeline::{
    justified_block_is_finalized, stages_of, Evidence, ImportOutcome, ImportPipeline, Ledger,
    Submission,
};
use crate::queue::{queue_result, ImportQueue};
use crate::rpc::{FinalitySnapshot, RpcSurface};
use crate::supervisor::{runs, spawned, Supervisor};
use sp_inherents::InherentDataProviders;
use vstd::prelude::*;

verus! {

/// What the construction of an import queue hands back: the queue, and with
/// it, directly, what later steps need. A full service gets the finality
/// linkage, a light service the builder of its finality-proof requests.
pub struct ImportSetup {
    pub queue: ImportQueue,
    pub linkage: Option<FinalityLinkage>,
    pub request_builder: Option<ProofRequestBuilder>,
}

/// A service before its tasks are activated.
pub struct Shell {
    pub kind: ServiceKind,
    pub construction: u64,
    pub select_chain: Option<ChainSelector>,
    pub pool: TransactionPool,
    pub import_queue: ImportQueue,
    pub request_builder: Option<ProofRequestBuilder>,
    pub rpc: RpcSurface,
    pub providers: InherentDataProviders,
}

/// The chain selector of a service: the longest-chain rule, where the node
/// has one configured.
pub fn select_chain(offered: &Collaborators) -> (selector: Option<ChainSelector>)
    ensures
        selector == if offered.chain_selector {
            Some(ChainSelector::LongestChain)
        } else {
            None
        },
{
    if offered.chain_selector {
        Some(ChainSelector::longest_chain())
    } else {
        None
    }
}

/// The transaction pool of a service. A light pool revalidates through the
/// fetcher and cannot be had without one.
pub fn transaction_pool(kind: ServiceKind, fetcher: bool) -> (pool: Result<
    TransactionPool,
    ServiceError,
>)
    ensures
        pool == match kind {
            ServiceKind::Full => Ok::<TransactionPool, ServiceError>(
                TransactionPool { revalidation: Revalidation::Full },
            ),
            ServiceKind::Light => if fetcher {
                Ok(TransactionPool { revalidation: Revalidation::Light })
            } else {
                Err(ServiceError::PoolWithoutFetcher)
            },
        },
{
    match kind {
        ServiceKind::Full => Ok(TransactionPool { revalidation: Revalidation::Full }),
        ServiceKind::Light => {
            if fetcher {
                Ok(TransactionPool { revalidation: Revalidation::Light })
            } else {
                Err(ServiceError::PoolWithoutFetcher)
            }
        },
    }
}

/// Why an import queue cannot be constructed, if it cannot: a full one
/// needs the chain selector, a light one the fetch checker that comes with
/// the fetcher.
pub open spec fn import_queue_error(kind: ServiceKind, selector: bool, fetcher: bool) -> Option<
    ServiceError,
> {
    match kind {
        ServiceKind::Full => if selector {
            None
        } else {
            Some(ServiceError::SelectChainRequired)
        },
        ServiceKind::Light => if fetcher {
            None
        } else {
            Some(ServiceError::ImportQueueWithoutFetchChecker)
        },
    }
}

/// Constructs the import queue of a service together with its pipeline.
/// The pipeline is composed from the base up in the order of the kind. The
/// one finality linkage of the construction is made here and nowhere else.
pub fn import_queue(
    kind: ServiceKind,
    select_chain: Option<ChainSelector>,
    fetcher: bool,
    slot_duration_millis: u64,
    providers: &InherentDataProviders,
    construction: u64,
) -> (setup: Result<ImportSetup, ServiceError>)
    ensures
        match setup {
            Ok(setup) => {
                &&& import_queue_error(kind, select_chain is Some, fetcher) is None
                &&& setup.queue.pipeline_of()@ == stages_of(kind)
                &&& setup.queue.pipeline_of().instance_of() == construction
                &&& setup.queue.selects() == select_chain is Some
                &&& setup.queue.slot_duration() == slot_duration_millis
                &&& setup.queue.pending_of().len() == 0
                &&& setup.queue.providers_of() == *providers
                &&& setup.linkage is Some <==> kind is Full
                &&& setup.linkage matches Some(linkage) ==> linkage.serial() == construction
                &&& setup.request_builder == if kind is Light {
                    Some(ProofRequestBuilder { construction })
                } else {
                    None
                }
            },
            Err(error) => import_queue_error(kind, select_chain is Some, fetcher) == Some(error),
        },
{
    match kind {
        ServiceKind::Full => {
            if select_chain.is_none() {
                return Err(ServiceError::SelectChainRequired);
            }
            let linkage = FinalityLinkage::produce(construction);
            let pipeline = ImportPipeline::compose(ServiceKind::Full, construction);
            let queue = ImportQueue::new(
                slot_duration_millis,
                pipeline,
                true,
                share_registry(providers),
            );
            Ok(ImportSetup { queue, linkage: Some(linkage), request_builder: None })
        },
        ServiceKind::Light => {
            if !fetcher {
                return Err(ServiceError::ImportQueueWithoutFetchChecker);
            }
            let pipeline = ImportPipeline::compose(ServiceKind::Light, construction);
            let queue = ImportQueue::new(
                slot_duration_millis,
                pipeline,
                select_chain.is_some(),
                share_registry(providers),
            );
            Ok(
                ImportSetup {
                    queue,
                    linkage: None,
                    request_builder: Some(ProofRequestBuilder { construction }),
                },
            )
        },
    }
}

/// Why an RPC surface cannot be constructed, if it cannot.
pub open spec fn rpc_error(kind: ServiceKind, fetcher: bool, remote_blockchain: bool) -> Option<
    ServiceError,
> {
    match kind {
        ServiceKind::Full => None,
        ServiceKind::Light => if !fetcher {
            Some(ServiceError::RpcWithoutFetcher)
        } else if !remote_blockchain {
            Some(ServiceError::RpcWithoutRemoteBlockchain)
        } else {
            None
        },
    }
}

/// Constructs the RPC surface. A full surface reads the voter state and the
/// authority set off the finality linkage, which stays where it is; by the
/// order of construction the linkage and the chain selector are there, and a
/// caller that has neither has made a programming error. A light surface
/// answers from remote data and needs the fetcher and the remote blockchain.
pub fn rpc_surface(
    kind: ServiceKind,
    select_chain: Option<ChainSelector>,
    linkage: Option<&FinalityLinkage>,
    fetcher: bool,
    remote_blockchain: bool,
) -> (surface: Result<RpcSurface, ServiceError>)
    requires
        kind is Full ==> select_chain is Some && linkage is Some,
    ensures
        match surface {
            Ok(surface) => {
                &&& rpc_error(kind, fetcher, remote_blockchain) is None
                &&& kind is Light ==> surface is Light
                &&& kind is Full ==> {
                    &&& surface matches RpcSurface::Full { select_chain: selector, finality }
                    &&& Some(selector) == select_chain
                    &&& finality.voter_state.construction == linkage->0.serial()
                    &&& finality.authority_set.construction == linkage->0.serial()
                }
            },
            Err(error) => rpc_error(kind, fetcher, remote_blockchain) == Some(error),
        },
{
    match kind {
        ServiceKind::Full => {
            let finality = FinalitySnapshot::of(linkage.unwrap());
            Ok(RpcSurface::Full { select_chain: select_chain.unwrap(), finality })
        },
        ServiceKind::Light => {
            if !fetcher {
                Err(ServiceError::RpcWithoutFetcher)
            } else if !remote_blockchain {
                Err(ServiceError::RpcWithoutRemoteBlockchain)
            } else {
                Ok(RpcSurface::Light)
            }
        },
    }
}

/// The first configuration error that the construction of a shell runs
/// into, in the order of the steps: transaction pool, import queue, RPC
/// surface.
pub open spec fn shell_error(kind: ServiceKind, offered: Collaborators) -> Option<ServiceError> {
    match kind {
        ServiceKind::Full => if offered.chain_selector {
            None
        } else {
            Some(ServiceError::SelectChainRequired)
        },
        ServiceKind::Light => if !offered.fetcher {
            Some(ServiceError::PoolWithoutFetcher)
        } else if !offered.remote_blockchain {
            Some(ServiceError::RpcWithoutRemoteBlockchain)
        } else {
            None
        },
    }
}

/// Whether a shell is what the construction with the given number makes of
/// the collaborators.
pub open spec fn shell_built(
    shell: Shell,
    linkage: Option<FinalityLinkage>,
    kind: ServiceKind,
    offered: Collaborators,
    construction: u64,
) -> bool {
    &&& shell.kind == kind
    &&& shell.construction == construction
    &&& shell.select_chain == if offered.chain_selector {
        Some(ChainSelector::LongestChain)
    } else {
        None
    }
    &&& shell.pool.revalidation == match kind {
        ServiceKind::Full => Revalidation::Full,
        ServiceKind::Light => Revalidation::Light,
    }
    &&& shell.import_queue.pipeline_of()@ == stages_of(kind)
    &&& shell.import_queue.pipeline_of().instance_of() == construction
    &&& shell.import_queue.selects() == offered.chain_selector
    &&& shell.import_queue.slot_duration() == offered.slot_duration_millis
    &&& shell.import_queue.pending_of().len() == 0
    &&& shell.import_queue.providers_of() == shell.providers
    &&& shell.request_builder == if kind is Light {
        Some(ProofRequestBuilder { construction })
    } else {
        None
    }
    &&& linkage is Some <==> kind is Full
    &&& linkage matches Some(made) ==> made.serial() == construction
    &&& kind is Light ==> shell.rpc is Light
    &&& kind is Full ==> {
        &&& shell.rpc matches RpcSurface::Full { select_chain: selector, finality }
        &&& selector == ChainSelector::LongestChain
        &&& finality.voter_state.construction == construction
        &&& finality.authority_set.construction == construction
    }
}

/// Constructs everything up to the shell, in the one order that is correct:
/// the registry of inherent-data providers, the chain selector, the
/// transaction pool, the import queue with its pipeline and linkage, the RPC
/// surface. The first step that fails ends the construction, and what was
/// made so far is dropped.
pub fn build_shell(kind: ServiceKind, offered: &Collaborators, construction: u64) -> (built: Result<
    (Shell, Option<FinalityLinkage>),
    ServiceError,
>)
    ensures
        match built {
            Ok((shell, linkage)) => shell_error(kind, *offered) is None && shell_built(
                shell,
                linkage,
                kind,
                *offered,
                construction,
            ),
            Err(error) => shell_error(kind, *offered) == Some(error),
        },
{
    let providers = new_registry();
    let selector = select_chain(offered);
    let pool = match transaction_pool(kind, offered.fetcher) {
        Ok(pool) => pool,
        Err(error) => {
            return Err(error);
        },
    };
    let setup = match import_queue(
        kind,
        selector,
        offered.fetcher,
        offered.slot_duration_millis,
        &providers,
        construction,
    ) {
        Ok(setup) => setup,
        Err(error) => {
            return Err(error);
        },
    };
    let rpc = match rpc_surface(
        kind,
        selector,
        setup.linkage.as_ref(),
        offered.fetcher,
        offered.remote_blockchain,
    ) {
        Ok(rpc) => rpc,
        Err(error) => {
            return Err(error);
        },
    };
    let shell = Shell {
        kind,
        construction,
        select_chain: selector,
        pool,
        import_queue: setup.queue,
        request_builder: setup.request_builder,
        rpc,
        providers,
    };
    Ok((shell, setup.linkage))
}

/// Why the tasks of a shell cannot be activated, if they cannot: an author
/// needs the chain selector.
pub open spec fn activation_error(shell: Shell, table: Activation) -> Option<ServiceError> {
    if table.author && shell.select_chain is None {
        Some(ServiceError::SelectChainRequired)
    } else {
        None
    }
}

/// Whether a service is what activation makes of a shell and a
/// configuration.
pub open spec fn activated(
    service: Service,
    shell: Shell,
    config: Configuration,
    linkage: Option<FinalityLinkage>,
) -> bool {
    let table = activation_for(shell.kind, config.role, config.disable_grandpa);
    &&& service.kind == shell.kind
    &&& service.construction == shell.construction
    &&& service.select_chain == shell.select_chain
    &&& service.pool == shell.pool
    &&& service.import_queue == shell.import_queue
    &&& service.request_builder == shell.request_builder
    &&& service.rpc == shell.rpc
    &&& service.providers == shell.providers
    &&& service.active() == table
    &&& service.discovery is Some <==> !(table.discovery is Off)
    &&& service.author matches Some(author) ==> {
        &&& author.slot_duration() == shell.import_queue.slot_duration()
        &&& author.forced() == config.force_authoring
        &&& author.pipeline_of() == shell.import_queue.pipeline_of().instance_of()
        &&& author.last() is None
        &&& author.providers_of() == shell.providers
    }
    &&& service.discovery matches Some(discovery) ==> {
        &&& discovery.sentries@ == config.role.sentries()
        &&& discovery.keystore == config.role.authority()
    }
    &&& service.voter matches Some(voter) ==> {
        &&& voter.config_of() == FinalityConfig::of_role(config.role, config.node_name)
        &&& Some(voter.linkage_of()) == linkage
        &&& voter.voter_state_of().construction == voter.linkage_of().serial()
        &&& voter.providers_of() == shell.providers
    }
    &&& service.supervisor.tasks_of() == spawned(table.tasks())
    &&& !service.supervisor.is_stopped()
    &&& service.ledger.applied@.len() == 0
    &&& service.ledger.finalized@.len() == 0
}

/// Activates the tasks of a shell after the role's line of the activation
/// table, which is looked up once. The author is spawned first, as an
/// essential task; discovery second, as a non-essential one; the voter last,
/// active as an essential task or disabled without a task. The voter takes
/// the finality linkage, in either state. A shell that cannot author has no
/// linkage and gets none of the three.
pub fn activate(shell: Shell, config: Configuration, linkage: Option<FinalityLinkage>) -> (result:
    Result<Service, ServiceError>)
    requires
        shell.kind is Full <==> linkage is Some,
    ensures
        match result {
            Ok(service) => {
                &&& activation_error(
                    shell,
                    activation_for(shell.kind, config.role, config.disable_grandpa),
                ) is None
                &&& activated(service, shell, config, linkage)
            },
            Err(error) => activation_error(
                shell,
                activation_for(shell.kind, config.role, config.disable_grandpa),
            ) == Some(error),
        },
{
    let table = activation(shell.kind, &config.role, config.disable_grandpa);
    let mut supervisor = Supervisor::new();
    let author = if table.author {
        if shell.select_chain.is_none() {
            return Err(ServiceError::SelectChainRequired);
        }
        supervisor.spawn(TaskKind::Author, criticality(TaskKind::Author));
        Some(
            Author::new(
                shell.import_queue.slot_duration_millis(),
                config.force_authoring,
                shell.import_queue.pipeline().instance(),
                share_registry(&shell.providers),
            ),
        )
    } else {
        None
    };
    let finality = FinalityConfig::for_role(&config.role, config.node_name);
    let discovery = if shell.kind.has_authoring() {
        Discovery::for_role(config.role)
    } else {
        None
    };
    if discovery.is_some() {
        supervisor.spawn(TaskKind::AuthorityDiscovery, criticality(TaskKind::AuthorityDiscovery));
    }
    let voter = match linkage {
        Some(linkage) => {
            let voter = Voter::start(
                config.disable_grandpa,
                finality,
                linkage,
                share_registry(&shell.providers),
            );
            if !config.disable_grandpa {
                supervisor.spawn(TaskKind::FinalityVoter, criticality(TaskKind::FinalityVoter));
            }
            Some(voter)
        },
        None => None,
    };
    assert(supervisor.tasks_of() =~= spawned(table.tasks()));
    Ok(
        Service {
            kind: shell.kind,
            construction: shell.construction,
            select_chain: shell.select_chain,
            pool: shell.pool,
            import_queue: shell.import_queue,
            request_builder: shell.request_builder,
            rpc: shell.rpc,
            providers: shell.providers,
            author,
            discovery,
            voter,
            supervisor,
            ledger: Ledger::new(),
        },
    )
}

/// Whether a service is what the construction with the given number makes
/// of a configuration and the collaborators on offer. The service is whole,
/// its active components are the role's line of the activation table, and
/// each of them is set up from the configuration.
pub open spec fn assembled(
    service: Service,
    kind: ServiceKind,
    config: Configuration,
    offered: Collaborators,
    construction: u64,
) -> bool {
    let table = activation_for(kind, config.role, config.disable_grandpa);
    &&& service.wf()
    &&& service.kind == kind
    &&& service.construction == construction
    &&& service.select_chain == if offered.chain_selector {
        Some(ChainSelector::LongestChain)
    } else {
        None
    }
    &&& service.import_queue.selects() == offered.chain_selector
    &&& service.import_queue.slot_duration() == offered.slot_duration_millis
    &&& service.import_queue.pending_of().len() == 0
    &&& service.active() == table
    &&& service.discovery is Some <==> !(table.discovery is Off)
    &&& service.author matches Some(author) ==> {
        &&& author.slot_duration() == offered.slot_duration_millis
        &&& author.forced() == config.force_authoring
        &&& author.last() is None
    }
    &&& service.discovery matches Some(discovery) ==> {
        &&& discovery.sentries@ == config.role.sentries()
        &&& discovery.keystore == config.role.authority()
    }
    &&& service.voter matches Some(voter) ==> voter.config_of() == FinalityConfig::of_role(
        config.role,
        config.node_name,
    )
    &&& service.rpc matches RpcSurface::Full { select_chain: selector, .. } ==> selector
        == ChainSelector::LongestChain
    &&& service.supervisor.tasks_of() == spawned(table.tasks())
    &&& !service.supervisor.is_stopped()
    &&& service.ledger.applied@.len() == 0
    &&& service.ledger.finalized@.len() == 0
}

/// Assembles a service of the given kind: the shell first, the tasks after
/// it. Both kinds of service are built by this one function; the kind says
/// whether the service can author and whether it fetches finality proofs.
/// Either the whole service comes back or a configuration error does.
pub fn assemble(
    kind: ServiceKind,
    config: Configuration,
    offered: &Collaborators,
    construction: u64,
) -> (result: Result<Service, ServiceError>)
    ensures
        match result {
            Ok(service) => shell_error(kind, *offered) is None && assembled(
                service,
                kind,
                config,
                *offered,
                construction,
            ),
            Err(error) => shell_error(kind, *offered) == Some(error),
        },
{
    let (shell, linkage) = match build_shell(kind, offered, construction) {
        Ok(built) => built,
        Err(error) => {
            return Err(error);
        },
    };
    activate(shell, config, linkage)
}

/// No two constructions share a finality linkage, nor anything that is read
/// off one: services that come out of different constructions hold different
/// linkages, voter states and authority sets.
pub proof fn constructions_share_no_linkage(first: Service, second: Service)
    requires
        first.wf(),
        second.wf(),
        first.construction != second.construction,
    ensures
        first.voter is Some && second.voter is Some ==> first.voter->0.linkage_of()
            != second.voter->0.linkage_of() && first.voter->0.voter_state_of()
            != second.voter->0.voter_state_of(),
        first.rpc is Full && second.rpc is Full ==> first.rpc->Full_finality
            != second.rpc->Full_finality,
        first.import_queue.pipeline_of() != second.import_queue.pipeline_of(),
{
}

/// Two services that one assembler builds one after the other, from
/// whatever configurations, come out of different constructions.
pub proof fn successive_builds_are_apart(
    first: Service,
    second: Service,
    first_kind: ServiceKind,
    second_kind: ServiceKind,
    first_config: Configuration,
    second_config: Configuration,
    offered: Collaborators,
    constructions: u64,
)
    requires
        constructions < u64::MAX,
        assembled(first, first_kind, first_config, offered, constructions),
        assembled(second, second_kind, second_config, offered, (constructions + 1) as u64),
    ensures
        first.construction != second.construction,
        first.voter is Some && second.voter is Some ==> first.voter->0.linkage_of()
            != second.voter->0.linkage_of(),
{
    constructions_share_no_linkage(first, second);
}

/// A full service whose voter was switched off still takes justifications
/// from outside: a block with a valid slot proof and a valid justification
/// is accepted and finalized, while the voter casts no vote.
pub proof fn disabled_voter_still_takes_justifications(
    service: Service,
    config: Configuration,
    offered: Collaborators,
    construction: u64,
    submission: Submission,
)
    requires
        config.disable_grandpa,
        assembled(service, ServiceKind::Full, config, offered, construction),
        submission.block.seal is Valid,
        submission.block.execution is Valid,
        submission.justification == Some(Evidence::Valid),
    ensures
        service.voter is Some,
        service.voter->0.state_of() is Disabled,
        !service.voter->0.votes(),
        !runs(service.supervisor.tasks_of(), TaskKind::FinalityVoter),
        queue_result(service.import_queue.pipeline_of()@, submission) == Ok::<
            ImportOutcome,
            ImportError,
        >(ImportOutcome { finalized: true, proof_requested: false }),
{
    justified_block_is_finalized(submission);
}

/// Builds services, one construction after another. Every construction has
/// a number of its own, and so has everything that is made in it.
#[derive(Debug, PartialEq, Eq)]
pub struct Assembler {
    pub offered: Collaborators,
    /// How many constructions were begun.
    pub constructions: u64,
}

impl Assembler {
    pub fn new(offered: Collaborators) -> (assembler: Assembler)
        ensures
            assembler.offered == offered,
            assembler.constructions == 0,
    {
        Assembler { offered, constructions: 0 }
    }

    /// Builds the service of the configured role: a light service for a
    /// light node, a full service for every other.
    pub fn build(&mut self, config: Configuration) -> (result: Result<Service, ServiceError>)
        requires
            old(self).constructions < u64::MAX,
        ensures
            final(self).offered == old(self).offered,
            final(self).constructions == old(self).constructions + 1,
            match result {
                Ok(service) => {
                    &&& shell_error(ServiceKind::of_role(config.role), old(self).offered) is None
                    &&& assembled(
                        service,
                        ServiceKind::of_role(config.role),
                        config,
                        old(self).offered,
                        old(self).constructions,
                    )
                },
                Err(error) => shell_error(ServiceKind::of_role(config.role), old(self).offered)
                    == Some(error),
            },
    {
        let kind = ServiceKind::for_role(&config.role);
        self.assemble_next(kind, config)
    }

    /// Builds a service of the given kind in the next construction.
    pub fn assemble_next(&mut self, kind: ServiceKind, config: Configuration) -> (result: Result<
        Service,
        ServiceError,
    >)
        requires
            old(self).constructions < u64::MAX,
        ensures
            final(self).offered == old(self).offered,
            final(self).constructions == old(self).constructions + 1,
            match result {
                Ok(service) => shell_error(kind, old(self).offered) is None && assembled(
                    service,
                    kind,
                    config,
                    old(self).offered,
                    old(self).constructions,
                ),
                Err(error) => shell_error(kind, old(self).offered) == Some(error),
            },
    {
        let construction = self.constructions;
        self.constructions = construction + 1;
        assemble(kind, config, &self.offered, construction)
    }
}

/// Builds a new service for a full client.
pub fn new_full(config: Configuration, assembler: &mut Assembler) -> (result: Result<
    Service,
    ServiceError,
>)
    requires
        old(assembler).constructions < u64::MAX,
    ensures
        final(assembler).offered == old(assembler).offered,
        final(assembler).constructions == old(assembler).constructions + 1,
        match result {
            Ok(service) => shell_error(ServiceKind::Full, old(assembler).offered) is None
                && assembled(
                service,
                ServiceKind::Full,
                config,
                old(assembler).offered,
                old(assembler).constructions,
            ),
            Err(error) => shell_error(ServiceKind::Full, old(assembler).offered) == Some(error),
        },
{
    assembler.assemble_next(ServiceKind::Full, config)
}

/// Builds a new service for a light client.
pub fn new_light(config: Configuration, assembler: &mut Assembler) -> (result: Result<
    Service,
    ServiceError,
>)
    requires
        old(assembler).constructions < u64::MAX,
    ensures
        final(assembler).offered == old(assembler).offered,
        final(assembler).constructions == old(assembler).constructions + 1,
        match result {
            Ok(service) => shell_error(ServiceKind::Light, old(assembler).offered) is None
                && assembled(
                service,
                ServiceKind::Light,
                config,
                old(assembler).offered,
                old(assembler).constructions,
            ),
            Err(error) => shell_error(ServiceKind::Light, old(assembler).offered) == Some(error),
        },
{
    assembler.assemble_next(ServiceKind::Light, config)
}

} // verus!
