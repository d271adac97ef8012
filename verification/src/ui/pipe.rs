//! A mailbox between widgets: fetched object tables and user-mode texts
//! queue up and are taken back newest first.

use vstd::prelude::*;

use crate::dbclient::fetcher::FetchResult;
use crate::dbclient::fetcher::TableView;

verus! {

/// Why a read from the mailbox failed.
#[derive(Debug, PartialEq)]
pub enum Error {
    NoMessages,
}

/// One message: a fetched table of database objects, or a user-mode
/// text.
pub enum Payload {
    DbObjects(FetchResult),
    UserMode(String),
}

/// The mailbox itself: two queues, one per message kind.
pub struct Pipe {
    dbobjects: Vec<FetchResult>,
    user_modes: Vec<String>,
}

impl Pipe {
    /// The queued object tables, oldest first.
    pub closed spec fn objects(&self) -> Seq<Option<TableView>> {
        self.dbobjects.deep_view()
    }

    /// The queued user-mode texts, oldest first.
    pub closed spec fn modes(&self) -> Seq<Seq<char>> {
        self.user_modes.deep_view()
    }

    /// An empty mailbox.
    pub fn new() -> (r: Self)
        ensures
            r.objects() == Seq::<Option<TableView>>::empty(),
            r.modes() == Seq::<Seq<char>>::empty(),
    {
        let r = Self { dbobjects: Vec::new(), user_modes: Vec::new() };
        proof {
            assert(r.objects() =~= Seq::<Option<TableView>>::empty());
            assert(r.modes() =~= Seq::<Seq<char>>::empty());
        }
        r
    }

    /// Queues one message onto the queue of its kind.
    pub fn push_message(&mut self, payload: Payload) -> (r: Result<(), Error>)
        ensures
            r is Ok,
            match payload {
                Payload::DbObjects(fr) => final(self).objects() == old(self).objects().push(fr@)
                    && final(self).modes() == old(self).modes(),
                Payload::UserMode(m) => final(self).modes() == old(self).modes().push(m@)
                    && final(self).objects() == old(self).objects(),
            },
    {
        match payload {
            Payload::DbObjects(fetch_result) => {
                let ghost fr = fetch_result@;
                self.dbobjects.push(fetch_result);
                proof {
                    assert(self.objects() =~= old(self).objects().push(fr));
                }
            },
            Payload::UserMode(mode) => {
                let ghost m = mode@;
                self.user_modes.push(mode);
                proof {
                    assert(self.modes() =~= old(self).modes().push(m));
                }
            },
        };
        Ok(())
    }

    /// Takes the newest queued object table, if any.
    pub fn try_get_db_objects(&mut self) -> (r: Result<FetchResult, Error>)
        ensures
            final(self).modes() == old(self).modes(),
            old(self).objects().len() == 0 ==> (r matches Err(e) && e == Error::NoMessages
                && final(self).objects() == old(self).objects()),
            old(self).objects().len() > 0 ==> (r matches Ok(fr)
                && fr@ == old(self).objects().last()
                && final(self).objects() == old(self).objects().drop_last()),
    {
        let r = match self.dbobjects.pop() {
            Some(fetch_result) => Ok(fetch_result),
            None => Err(Error::NoMessages),
        };
        proof {
            if old(self).objects().len() > 0 {
                assert(self.objects() =~= old(self).objects().drop_last());
            } else {
                assert(self.objects() =~= old(self).objects());
            }
        }
        r
    }

    /// Takes the newest queued user-mode text, if any.
    pub fn try_get_user_mode(&mut self) -> (r: Result<String, Error>)
        ensures
            final(self).objects() == old(self).objects(),
            old(self).modes().len() == 0 ==> (r matches Err(e) && e == Error::NoMessages
                && final(self).modes() == old(self).modes()),
            old(self).modes().len() > 0 ==> (r matches Ok(m) && m@ == old(self).modes().last()
                && final(self).modes() == old(self).modes().drop_last()),
    {
        let r = match self.user_modes.pop() {
            Some(mode) => Ok(mode),
            None => Err(Error::NoMessages),
        };
        proof {
            if old(self).modes().len() > 0 {
                assert(self.modes() =~= old(self).modes().drop_last());
            } else {
                assert(self.modes() =~= old(self).modes());
            }
        }
        r
    }
}

} // verus!
