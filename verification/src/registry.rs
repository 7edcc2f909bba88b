//! Registration of the endpoints: a builder collects them under their names,
//! and building it yields the table by which calls are dispatched.

use vstd::prelude::*;

verus! {

/// An endpoint as it is registered: the name it is called by and a
/// description for its readers.
#[derive(Debug, PartialEq, Eq)]
pub struct Route {
    pub name: String,
    pub description: String,
}

/// Mathematical model of a [`Route`].
pub struct RouteView {
    pub name: Seq<char>,
    pub description: Seq<char>,
}

impl View for Route {
    type V = RouteView;

    open spec fn view(&self) -> RouteView {
        RouteView { name: self.name@, description: self.description@ }
    }
}

/// The names of some routes, in their order.
pub open spec fn names(routes: Seq<RouteView>) -> Seq<Seq<char>> {
    routes.map_values(|r: RouteView| r.name)
}

/// Whether `at` is the first place at which a name occurs that an earlier
/// place holds already.
pub open spec fn is_first_repeat(names: Seq<Seq<char>>, at: int) -> bool {
    &&& 0 <= at < names.len()
    &&& names.take(at).no_duplicates()
    &&& names.take(at).contains(names[at])
}

/// Why a builder could not be built.
#[derive(Debug, PartialEq, Eq)]
pub enum BuildError {
    /// Two endpoints were registered under this name.
    DuplicateName { name: String },
}

/// Collects the endpoints of a service, in the order of their registration.
#[derive(Debug)]
pub struct Builder {
    pub routes: Vec<Route>,
}

impl View for Builder {
    type V = Seq<RouteView>;

    open spec fn view(&self) -> Seq<RouteView> {
        self.routes@.map_values(|r: Route| r@)
    }
}

/// The table of the registered endpoints. No two of them share a name.
#[derive(Debug)]
pub struct Router {
    routes: Vec<Route>,
}

impl View for Router {
    type V = Seq<RouteView>;

    closed spec fn view(&self) -> Seq<RouteView> {
        self.routes@.map_values(|r: Route| r@)
    }
}

impl Builder {
    /// A builder with no endpoint.
    pub fn new() -> (builder: Builder)
        ensures
            builder@ == Seq::<RouteView>::empty(),
    {
        let builder = Builder { routes: Vec::new() };
        assert(builder@ =~= Seq::<RouteView>::empty());
        builder
    }

    /// Registers one more endpoint, after those registered so far.
    pub fn route(self, name: &str, description: &str) -> (builder: Builder)
        ensures
            builder@ == self@.push(RouteView { name: name@, description: description@ }),
    {
        let mut routes = self.routes;
        routes.push(Route { name: name.to_owned(), description: description.to_owned() });
        let builder = Builder { routes };
        assert(builder@ =~= self@.push(RouteView { name: name@, description: description@ }));
        builder
    }

    /// Builds the dispatch table. This succeeds exactly if no two endpoints
    /// share a name; the table then holds the endpoints as they were
    /// registered. Otherwise the error names the first name that was
    /// registered a second time.
    pub fn build(self) -> (built: Result<Router, BuildError>)
        ensures
            built is Ok <==> names(self@).no_duplicates(),
            built matches Ok(router) ==> router@ == self@,
            built matches Err(BuildError::DuplicateName { name }) ==> exists|at: int|
                is_first_repeat(names(self@), at) && name@ == #[trigger] names(self@)[at],
    {
        let ghost all = names(self@);
        let count = self.routes.len();
        let mut at: usize = 0;
        while at < count
            invariant
                count == self.routes.len(),
                all == names(self@),
                at <= count,
                all.take(at as int).no_duplicates(),
            decreases count - at,
        {
            let mut before: usize = 0;
            while before < at
                invariant
                    count == self.routes.len(),
                    all == names(self@),
                    before <= at < count,
                    all.take(at as int).no_duplicates(),
                    forall|k: int| 0 <= k < before ==> all[k] != all[at as int],
                decreases at - before,
            {
                if self.routes[before].name == self.routes[at].name {
                    let name = self.routes[at].name.clone();
                    proof {
                        assert(all.take(at as int)[before as int] == all[at as int]);
                        assert(is_first_repeat(all, at as int));
                    }
                    return Err(BuildError::DuplicateName { name });
                }
                before += 1;
            }
            proof {
                let shorter = all.take(at as int);
                let longer = all.take(at as int + 1);
                assert forall|i: int, j: int|
                    0 <= i < longer.len() && 0 <= j < longer.len() && i != j implies longer[i]
                    != longer[j] by {
                    if i < at && j < at {
                        assert(shorter[i] != shorter[j]);
                    }
                }
            }
            at += 1;
        }
        assert(all.take(at as int) =~= all);
        Ok(Router { routes: self.routes })
    }
}

impl Router {
    /// The endpoints of the table, in the order of their registration.
    pub fn routes(&self) -> (routes: &Vec<Route>)
        ensures
            routes@.map_values(|r: Route| r@) == self@,
            names(self@).no_duplicates(),
    {
        proof {
            use_type_invariant(self);
        }
        &self.routes
    }

    /// Looks an endpoint up by its name. The place returned is the only one
    /// that holds the name; none is returned exactly if no endpoint has it.
    pub fn find(&self, name: &str) -> (found: Option<usize>)
        ensures
            found matches Some(at) ==> at < self@.len() && self@[at as int].name == name@,
            found is None <==> !names(self@).contains(name@),
            names(self@).no_duplicates(),
    {
        proof {
            use_type_invariant(self);
        }
        let wanted = name.to_owned();
        let count = self.routes.len();
        let mut at: usize = 0;
        while at < count
            invariant
                count == self.routes.len(),
                wanted@ == name@,
                names(self@).no_duplicates(),
                at <= count,
                forall|k: int| 0 <= k < at ==> names(self@)[k] != name@,
            decreases count - at,
        {
            if self.routes[at].name == wanted {
                assert(names(self@)[at as int] == name@);
                return Some(at);
            }
            at += 1;
        }
        None
    }

    #[verifier::type_invariant]
    spec fn distinct_names(self) -> bool {
        names(self@).no_duplicates()
    }
}

/// Among routes of which two share a name, building fails: no dispatch table
/// comes of them.
pub proof fn shared_name_prevents_building(routes: Seq<RouteView>, first: int, second: int)
    requires
        0 <= first < routes.len(),
        0 <= second < routes.len(),
        first != second,
        routes[first].name == routes[second].name,
    ensures
        !names(routes).no_duplicates(),
{
    assert(names(routes)[first] == names(routes)[second]);
}

/// Building has one outcome: a sequence of names has at most one first
/// repeat, so the routes registered determine the error as they determine
/// the table.
pub proof fn first_repeat_is_unique(names: Seq<Seq<char>>, at: int, other: int)
    requires
        is_first_repeat(names, at),
        is_first_repeat(names, other),
    ensures
        at == other,
{
    if at < other {
        let earlier = choose|i: int| 0 <= i < at && names.take(at)[i] == names[at];
        assert(names.take(other)[earlier] == names.take(other)[at]);
    } else if other < at {
        let earlier = choose|i: int| 0 <= i < other && names.take(other)[i] == names[other];
        assert(names.take(at)[earlier] == names.take(at)[other]);
    }
}

/// The endpoints of this service: the listing of the books.
pub fn builder() -> (builder: Builder)
    ensures
        builder@ == seq![RouteView { name: "books.list"@, description: "List all books"@ }],
{
    let builder = Builder::new().route("books.list", "List all books");
    assert(builder@ =~= seq![RouteView { name: "books.list"@, description: "List all books"@ }]);
    builder
}

} // verus!
