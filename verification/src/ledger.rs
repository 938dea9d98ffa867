use vstd::prelude::*;
use crate::error::Error;
use crate::identity::Address;
use crate::laws::distribution_is_equal_split;
use crate::state::RoyaltiesState;
use crate::transfer::{total_amount, Transfer, TransferOutcome};

verus! {

/// The records of a ledger as mathematical values.
pub struct LedgerView {
    /// The ledger's own account, which holds the contributed funds.
    pub custodian: Address,
    /// Who may register participants and move the lifecycle.
    pub admin: Option<Address>,
    /// The token ledger through which every transfer goes.
    pub token: Option<Address>,
    /// The lifecycle state; `None` before initialization.
    pub state: Option<RoyaltiesState>,
    /// The artists, in the order in which they were added.
    pub artists: Seq<Address>,
    /// The listeners, in the order in which they were added.
    pub listeners: Seq<Address>,
    /// The funds that await distribution.
    pub royalties_pool: int,
}

impl LedgerView {
    /// Admin, token and lifecycle state are written together, and the pool is
    /// never negative.
    pub open spec fn wf(self) -> bool {
        &&& self.admin is Some <==> self.state is Some
        &&& self.token is Some <==> self.state is Some
        &&& self.royalties_pool >= 0
    }

    /// The ledger once `init` has written its three records.
    pub open spec fn initialized(self, admin: Address, token: Address) -> LedgerView {
        LedgerView {
            admin: Some(admin),
            token: Some(token),
            state: Some(RoyaltiesState::Initialized),
            ..self
        }
    }

    /// The ledger with one more artist at the end of the registry.
    pub open spec fn with_artist(self, artist: Address) -> LedgerView {
        LedgerView { artists: self.artists.push(artist), ..self }
    }

    /// The ledger with one more listener at the end of the registry.
    pub open spec fn with_listener(self, listener: Address) -> LedgerView {
        LedgerView { listeners: self.listeners.push(listener), ..self }
    }

    /// The ledger in another lifecycle state.
    pub open spec fn with_state(self, state: RoyaltiesState) -> LedgerView {
        LedgerView { state: Some(state), ..self }
    }

    /// The ledger with another balance in the pool.
    pub open spec fn with_pool(self, royalties_pool: int) -> LedgerView {
        LedgerView { royalties_pool, ..self }
    }

    /// The guard of the privileged operations: the admin must be on record
    /// and the caller must be the admin.
    pub open spec fn admin_check(self, caller: Address) -> Result<(), Error> {
        match self.admin {
            None => Err(Error::NotInitialized),
            Some(admin) => if caller == admin {
                Ok(())
            } else {
                Err(Error::Unauthorized)
            },
        }
    }

    /// What `init` answers: a ledger is initialized once, by the identity
    /// that becomes its admin.
    pub open spec fn init_result(self, caller: Address, admin: Address) -> Result<(), Error> {
        if self.state is Some {
            Err(Error::AlreadyInitialized)
        } else if caller != admin {
            Err(Error::Unauthorized)
        } else {
            Ok(())
        }
    }

    /// What `add_artist` and `add_listener` answer.
    pub open spec fn register_result(self, caller: Address) -> Result<(), Error> {
        self.admin_check(caller)
    }

    /// What `start_distribution` answers.
    pub open spec fn start_result(self, caller: Address) -> Result<(), Error> {
        match self.admin_check(caller) {
            Err(e) => Err(e),
            Ok(_) => match self.state {
                None => Err(Error::NotInitialized),
                Some(RoyaltiesState::Active) => Err(Error::AlreadyActive),
                Some(_) => Ok(()),
            },
        }
    }

    /// What `stop_distribution` answers.
    pub open spec fn stop_result(self, caller: Address) -> Result<(), Error> {
        match self.admin_check(caller) {
            Err(e) => Err(e),
            Ok(_) => match self.state {
                None => Err(Error::NotInitialized),
                Some(RoyaltiesState::Active) => Ok(()),
                Some(_) => Err(Error::NotActive),
            },
        }
    }

    /// The transfer that a contribution asks of the token ledger: `amount`
    /// from the caller to the custodian. There is none before initialization
    /// and none for an amount that is not positive.
    pub open spec fn contribution(self, caller: Address, amount: i128) -> Result<Transfer, Error> {
        match self.token {
            None => Err(Error::NotInitialized),
            Some(token) => if amount <= 0 {
                Err(Error::InsufficientFunds)
            } else {
                Ok(Transfer { token, from: caller, to: self.custodian, amount })
            },
        }
    }

    /// What `contribute` answers, given what the token ledger said of the
    /// transfer.
    pub open spec fn contribute_result(
        self,
        caller: Address,
        amount: i128,
        outcome: TransferOutcome,
    ) -> Result<(), Error> {
        match self.contribution(caller, amount) {
            Err(e) => Err(e),
            Ok(_) => match outcome {
                TransferOutcome::Completed => Ok(()),
                TransferOutcome::InsufficientFunds => Err(Error::InsufficientFunds),
            },
        }
    }

    /// What each artist gets from a distribution: the pool divided by the
    /// number of artists, rounded down.
    pub open spec fn share(self) -> int
        recommends
            self.artists.len() > 0,
    {
        self.royalties_pool / (self.artists.len() as int)
    }

    /// Why no distribution can be made, if none can: the ledger must be
    /// active and have an artist.
    pub open spec fn distribution_error(self) -> Option<Error> {
        match (self.state, self.token) {
            (None, _) => Some(Error::NotInitialized),
            (Some(RoyaltiesState::Active), None) => Some(Error::NotInitialized),
            (Some(RoyaltiesState::Active), Some(_)) => if self.artists.len() == 0 {
                Some(Error::InvalidArtistAddress)
            } else {
                None
            },
            (Some(_), _) => Some(Error::NotActive),
        }
    }

    /// The transfers of a distribution: one per artist, in the order of the
    /// registry, each of one share from the custodian.
    pub open spec fn distribution(self) -> Seq<Transfer>
        recommends
            self.token is Some,
            self.artists.len() > 0,
    {
        Seq::new(
            self.artists.len(),
            |k: int|
                Transfer {
                    token: self.token->0,
                    from: self.custodian,
                    to: self.artists[k],
                    amount: self.share() as i128,
                },
        )
    }

    /// What `distribute_royalties` answers, given what the token ledger said
    /// of the transfers.
    pub open spec fn distribute_result(self, outcome: TransferOutcome) -> Result<(), Error> {
        match self.distribution_error() {
            Some(e) => Err(e),
            None => match outcome {
                TransferOutcome::Completed => Ok(()),
                TransferOutcome::InsufficientFunds => Err(Error::InsufficientFunds),
            },
        }
    }
}

/// The royalties ledger: one admin, one token, one pool, two registries and
/// a lifecycle state.
///
/// The ledger moves no funds. An operation that moves funds comes in two
/// parts: one that says which transfers to ask of the token ledger
/// (`contribution_transfer`, `distribution_transfers`) and one that settles
/// the pool once the token ledger has answered (`contribute`,
/// `distribute_royalties`). The second part decides again whether the
/// operation is allowed, so the pool never moves on an answer alone.
pub struct RoyaltiesContract {
    custodian: Address,
    admin: Option<Address>,
    token: Option<Address>,
    state: Option<RoyaltiesState>,
    artists: Vec<Address>,
    listeners: Vec<Address>,
    royalties_pool: i128,
}

impl View for RoyaltiesContract {
    type V = LedgerView;

    closed spec fn view(&self) -> LedgerView {
        LedgerView {
            custodian: self.custodian,
            admin: self.admin,
            token: self.token,
            state: self.state,
            artists: self.artists@,
            listeners: self.listeners@,
            royalties_pool: self.royalties_pool as int,
        }
    }
}

impl RoyaltiesContract {
    /// The invariant of the ledger, which every operation keeps.
    pub open spec fn wf(&self) -> bool {
        &&& self@.wf()
        &&& self@.royalties_pool <= i128::MAX
    }

    /// A ledger that has not been initialized: nothing on record, empty
    /// registries, an empty pool.
    pub fn new(custodian: Address) -> (ledger: RoyaltiesContract)
        ensures
            ledger.wf(),
            ledger@ == (LedgerView {
                custodian,
                admin: None,
                token: None,
                state: None,
                artists: Seq::empty(),
                listeners: Seq::empty(),
                royalties_pool: 0,
            }),
    {
        RoyaltiesContract {
            custodian,
            admin: None,
            token: None,
            state: None,
            artists: Vec::new(),
            listeners: Vec::new(),
            royalties_pool: 0,
        }
    }

    /// A ledger made of records that were kept elsewhere. They make a ledger
    /// exactly when admin, token and state are all there or all missing and
    /// the pool is not negative.
    pub fn restore(
        custodian: Address,
        admin: Option<Address>,
        token: Option<Address>,
        state: Option<RoyaltiesState>,
        artists: Vec<Address>,
        listeners: Vec<Address>,
        royalties_pool: i128,
    ) -> (r: Option<RoyaltiesContract>)
        ensures
            r is Some <==> (LedgerView {
                custodian,
                admin,
                token,
                state,
                artists: artists@,
                listeners: listeners@,
                royalties_pool: royalties_pool as int,
            }).wf(),
            r matches Some(ledger) ==> ledger.wf() && ledger@ == (LedgerView {
                custodian,
                admin,
                token,
                state,
                artists: artists@,
                listeners: listeners@,
                royalties_pool: royalties_pool as int,
            }),
    {
        if admin.is_some() != state.is_some() || token.is_some() != state.is_some()
            || royalties_pool < 0 {
            return None;
        }
        Some(RoyaltiesContract { custodian, admin, token, state, artists, listeners, royalties_pool })
    }

    /// The transfers that a distribution asks of the token ledger, or the
    /// reason why there is nothing to distribute. The ledger is left as it
    /// is: `distribute_royalties` settles the pool once the transfers are
    /// made.
    pub fn distribution_transfers(&self) -> (r: Result<Vec<Transfer>, Error>)
        requires
            self.wf(),
        ensures
            match r {
                Ok(transfers) => {
                    &&& self@.distribution_error() is None
                    &&& transfers@ == self@.distribution()
                    &&& transfers@.len() == self@.artists.len()
                    &&& forall|k: int|
                        0 <= k < transfers@.len() ==> (#[trigger] transfers@[k]).amount
                            == self@.share()
                    &&& total_amount(transfers@) <= self@.royalties_pool
                },
                Err(e) => self@.distribution_error() == Some(e),
            },
    {
        let token = match (self.state, self.token) {
            (None, _) => { return Err(Error::NotInitialized); },
            (Some(RoyaltiesState::Active), None) => { return Err(Error::NotInitialized); },
            (Some(RoyaltiesState::Active), Some(token)) => token,
            (Some(_), _) => { return Err(Error::NotActive); },
        };
        let count: usize = self.artists.len();
        if count == 0 {
            return Err(Error::InvalidArtistAddress);
        }
        let share: i128 = self.royalties_pool / (count as i128);
        let mut transfers: Vec<Transfer> = Vec::new();
        let mut i: usize = 0;
        while i < count
            invariant
                i <= count,
                count == self.artists@.len(),
                transfers@.len() == i,
                forall|k: int|
                    0 <= k < i ==> transfers@[k] == (Transfer {
                        token,
                        from: self.custodian,
                        to: self.artists@[k],
                        amount: share,
                    }),
            decreases count - i,
        {
            transfers.push(Transfer { token, from: self.custodian, to: self.artists[i], amount: share });
            i += 1;
        }
        proof {
            assert(transfers@ =~= self@.distribution());
            distribution_is_equal_split(self@, TransferOutcome::Completed);
        }
        Ok(transfers)
    }

    /// Settles a distribution. `outcome` is what the token ledger answered to
    /// the transfers of `distribution_transfers`, taken together. Where they
    /// were all made the pool is emptied, whatever the division left over;
    /// otherwise the ledger stays as it was.
    pub fn distribute_royalties(&mut self, outcome: TransferOutcome) -> (r: Result<(), Error>)
        requires
            old(self).wf(),
        ensures
            final(self).wf(),
            r == old(self)@.distribute_result(outcome),
            final(self)@ == if r is Ok {
                old(self)@.with_pool(0)
            } else {
                old(self)@
            },
    {
        match (self.state, self.token) {
            (None, _) => { return Err(Error::NotInitialized); },
            (Some(RoyaltiesState::Active), None) => { return Err(Error::NotInitialized); },
            (Some(RoyaltiesState::Active), Some(_)) => {},
            (Some(_), _) => { return Err(Error::NotActive); },
        }
        if self.artists.len() == 0 {
            return Err(Error::InvalidArtistAddress);
        }
        match outcome {
            TransferOutcome::InsufficientFunds => Err(Error::InsufficientFunds),
            TransferOutcome::Completed => {
                self.royalties_pool = 0;
                Ok(())
            },
        }
    }

    /// Initializes the ledger: records the admin and the token, and enters
    /// the state `Initialized`. Only the identity that becomes admin may do
    /// so, and only once.
    pub fn init(&mut self, caller: Address, admin: Address, token: Address) -> (r: Result<(), Error>)
        requires
            old(self).wf(),
        ensures
            final(self).wf(),
            r == old(self)@.init_result(caller, admin),
            final(self)@ == if r is Ok {
                old(self)@.initialized(admin, token)
            } else {
                old(self)@
            },
    {
        if self.state.is_some() {
            return Err(Error::AlreadyInitialized);
        }
        if caller != admin {
            return Err(Error::Unauthorized);
        }
        self.admin = Some(admin);
        self.token = Some(token);
        self.state = Some(RoyaltiesState::Initialized);
        Ok(())
    }

    /// The guard of every privileged operation: succeeds exactly when the
    /// caller is the admin on record.
    pub fn require_admin(&self, caller: Address) -> (r: Result<(), Error>)
        ensures
            r == self@.admin_check(caller),
            r is Ok <==> self@.admin == Some(caller),
    {
        match self.admin {
            None => Err(Error::NotInitialized),
            Some(admin) => if caller == admin {
                Ok(())
            } else {
                Err(Error::Unauthorized)
            },
        }
    }

    /// Starts the distribution: the admin moves the ledger to `Active` from
    /// any other state.
    pub fn start_distribution(&mut self, caller: Address) -> (r: Result<(), Error>)
        requires
            old(self).wf(),
        ensures
            final(self).wf(),
            r == old(self)@.start_result(caller),
            final(self)@ == if r is Ok {
                old(self)@.with_state(RoyaltiesState::Active)
            } else {
                old(self)@
            },
    {
        match self.require_admin(caller) {
            Err(e) => { return Err(e); },
            Ok(_) => {},
        }
        match self.state {
            None => Err(Error::NotInitialized),
            Some(RoyaltiesState::Active) => Err(Error::AlreadyActive),
            Some(_) => {
                self.state = Some(RoyaltiesState::Active);
                Ok(())
            },
        }
    }

    /// Stops the distribution: the admin moves the ledger from `Active` to
    /// `Finished`.
    pub fn stop_distribution(&mut self, caller: Address) -> (r: Result<(), Error>)
        requires
            old(self).wf(),
        ensures
            final(self).wf(),
            r == old(self)@.stop_result(caller),
            final(self)@ == if r is Ok {
                old(self)@.with_state(RoyaltiesState::Finished)
            } else {
                old(self)@
            },
    {
        match self.require_admin(caller) {
            Err(e) => { return Err(e); },
            Ok(_) => {},
        }
        match self.state {
            None => Err(Error::NotInitialized),
            Some(RoyaltiesState::Active) => {
                self.state = Some(RoyaltiesState::Finished);
                Ok(())
            },
            Some(_) => Err(Error::NotActive),
        }
    }

    /// Adds an artist at the end of the registry. Only the admin may do so;
    /// an identity that is already registered is added again.
    pub fn add_artist(&mut self, caller: Address, artist: Address) -> (r: Result<(), Error>)
        requires
            old(self).wf(),
        ensures
            final(self).wf(),
            r == old(self)@.register_result(caller),
            final(self)@ == if r is Ok {
                old(self)@.with_artist(artist)
            } else {
                old(self)@
            },
    {
        match self.require_admin(caller) {
            Err(e) => { return Err(e); },
            Ok(_) => {},
        }
        self.artists.push(artist);
        Ok(())
    }

    /// Adds a listener at the end of the registry. Only the admin may do so;
    /// an identity that is already registered is added again.
    pub fn add_listener(&mut self, caller: Address, listener: Address) -> (r: Result<(), Error>)
        requires
            old(self).wf(),
        ensures
            final(self).wf(),
            r == old(self)@.register_result(caller),
            final(self)@ == if r is Ok {
                old(self)@.with_listener(listener)
            } else {
                old(self)@
            },
    {
        match self.require_admin(caller) {
            Err(e) => { return Err(e); },
            Ok(_) => {},
        }
        self.listeners.push(listener);
        Ok(())
    }

    /// The transfer that a contribution of `amount` by `caller` asks of the
    /// token ledger, or the reason why none is asked. The ledger is left as
    /// it is: `contribute` settles the pool once the transfer is made.
    pub fn contribution_transfer(&self, caller: Address, amount: i128) -> (r: Result<Transfer, Error>)
        ensures
            r == self@.contribution(caller, amount),
    {
        match self.token {
            None => Err(Error::NotInitialized),
            Some(token) => if amount <= 0 {
                Err(Error::InsufficientFunds)
            } else {
                Ok(Transfer { token, from: caller, to: self.custodian, amount })
            },
        }
    }

    /// Whether the pool can take `amount` more without leaving the range of
    /// an amount.
    pub fn can_hold(&self, amount: i128) -> (b: bool)
        ensures
            b == (self@.royalties_pool + amount <= i128::MAX),
    {
        amount <= 0 || self.royalties_pool <= i128::MAX - amount
    }

    /// Settles a contribution. `outcome` is what the token ledger answered to
    /// the transfer of `contribution_transfer`. Where it was made the pool
    /// grows by `amount`; otherwise the ledger stays as it was. Any caller
    /// may contribute, in any lifecycle state.
    pub fn contribute(&mut self, caller: Address, amount: i128, outcome: TransferOutcome) -> (r: Result<(), Error>)
        requires
            old(self).wf(),
            old(self)@.royalties_pool + amount <= i128::MAX,
        ensures
            final(self).wf(),
            r == old(self)@.contribute_result(caller, amount, outcome),
            final(self)@ == if r is Ok {
                old(self)@.with_pool(old(self)@.royalties_pool + amount)
            } else {
                old(self)@
            },
    {
        match self.contribution_transfer(caller, amount) {
            Err(e) => { return Err(e); },
            Ok(_) => {},
        }
        match outcome {
            TransferOutcome::InsufficientFunds => Err(Error::InsufficientFunds),
            TransferOutcome::Completed => {
                self.royalties_pool = self.royalties_pool + amount;
                Ok(())
            },
        }
    }

    /// The ledger's own account.
    pub fn custodian(&self) -> (a: Address)
        ensures
            a == self@.custodian,
    {
        self.custodian
    }

    /// The admin, once the ledger is initialized.
    pub fn admin(&self) -> (a: Option<Address>)
        ensures
            a == self@.admin,
    {
        self.admin
    }

    /// The token ledger, once the ledger is initialized.
    pub fn token(&self) -> (a: Option<Address>)
        ensures
            a == self@.token,
    {
        self.token
    }

    /// The lifecycle state, once the ledger is initialized.
    pub fn state(&self) -> (s: Option<RoyaltiesState>)
        ensures
            s == self@.state,
    {
        self.state
    }

    /// The artists, in the order in which they were added.
    pub fn artists(&self) -> (v: &Vec<Address>)
        ensures
            v@ == self@.artists,
    {
        &self.artists
    }

    /// The listeners, in the order in which they were added.
    pub fn listeners(&self) -> (v: &Vec<Address>)
        ensures
            v@ == self@.listeners,
    {
        &self.listeners
    }

    /// The funds that await distribution.
    pub fn royalties_pool(&self) -> (p: i128)
        ensures
            p == self@.royalties_pool,
    {
        self.royalties_pool
    }
}

} // verus!
