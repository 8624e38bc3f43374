use vstd::prelude::*;

use crate::errors::SimError;

verus! {

/// The mathematical view of a stoichiometry matrix: each row as a sequence.
pub open spec fn rows_view(rows: Seq<Vec<i64>>) -> Seq<Seq<i64>> {
    rows.map_values(|r: Vec<i64>| r@)
}

/// The shape the network must have: one stoichiometry row per rate constant,
/// each row holding one signed update per species.
pub open spec fn shape_ok(num_rates: nat, rows: Seq<Seq<i64>>, num_species: nat) -> bool {
    &&& rows.len() == num_rates
    &&& forall|j: int| 0 <= j < rows.len() ==> (#[trigger] rows[j]).len() == num_species
}

/// Immutable description of a reaction network: one rate-constant code and one
/// stoichiometry row per reaction. Rate constants are kept as magnitude codes
/// (see the crate root); the engine never computes with them, it only hands
/// them back to the driver.
pub struct ReactionNetwork {
    rate_codes: Vec<u64>,
    stoich_rows: Vec<Vec<i64>>,
    n_species: usize,
}

impl ReactionNetwork {
    /// Number of reactions M.
    pub closed spec fn num_reactions(&self) -> nat {
        self.rate_codes@.len()
    }

    /// Number of species N.
    pub closed spec fn num_species(&self) -> nat {
        self.n_species as nat
    }

    /// The rate-constant codes, one per reaction.
    pub closed spec fn rates(&self) -> Seq<u64> {
        self.rate_codes@
    }

    /// The stoichiometry matrix: `updates()[j][i]` is the signed change in
    /// species `i` when reaction `j` fires.
    pub closed spec fn updates(&self) -> Seq<Seq<i64>> {
        rows_view(self.stoich_rows@)
    }

    /// Dimensional consistency, established at construction and never broken:
    /// exactly one update row per reaction, each of the species count's length.
    pub closed spec fn wf(&self) -> bool {
        shape_ok(self.num_reactions(), self.updates(), self.num_species())
    }

    /// Build a network from the rate-constant codes, the stoichiometry matrix,
    /// and the species count (taken from the initial state's length). Fails
    /// with `SimError::Shape` — and only then — if the matrix does not hold
    /// exactly one row of length `num_species` per rate constant.
    pub fn new(rate_codes: Vec<u64>, stoichiometry: Vec<Vec<i64>>, num_species: usize) -> (r:
        Result<ReactionNetwork, SimError>)
        ensures
            r is Ok <==> shape_ok(
                rate_codes@.len(),
                rows_view(stoichiometry@),
                num_species as nat,
            ),
            r matches Ok(net) ==> {
                &&& net.wf()
                &&& net.rates() == rate_codes@
                &&& net.updates() == rows_view(stoichiometry@)
                &&& net.num_reactions() == rate_codes@.len()
                &&& net.num_species() == num_species as nat
            },
            r matches Err(e) ==> e is Shape,
    {
        if stoichiometry.len() != rate_codes.len() {
            return Err(SimError::Shape);
        }
        let mut j: usize = 0;
        while j < stoichiometry.len()
            invariant
                j <= stoichiometry@.len(),
                forall|k: int| 0 <= k < j ==> (#[trigger] stoichiometry@[k])@.len()
                    == num_species,
            decreases stoichiometry@.len() - j,
        {
            if stoichiometry[j].len() != num_species {
                proof {
                    assert(rows_view(stoichiometry@)[j as int].len() != num_species as nat);
                }
                return Err(SimError::Shape);
            }
            j += 1;
        }
        Ok(ReactionNetwork { rate_codes, stoich_rows: stoichiometry, n_species: num_species })
    }

    /// Number of reactions M.
    pub fn reaction_count(&self) -> (m: usize)
        ensures
            m as nat == self.num_reactions(),
    {
        self.rate_codes.len()
    }

    /// Number of species N.
    pub fn species_count(&self) -> (n: usize)
        ensures
            n as nat == self.num_species(),
    {
        self.n_species
    }

    /// Read one rate-constant code.
    pub fn rate_code(&self, j: usize) -> (c: u64)
        requires
            (j as nat) < self.num_reactions(),
        ensures
            c == self.rates()[j as int],
    {
        self.rate_codes[j]
    }

    /// Read one entry of the stoichiometry matrix: the signed change in
    /// species `i` when reaction `j` fires.
    pub fn update(&self, j: usize, i: usize) -> (d: i64)
        requires
            self.wf(),
            (j as nat) < self.num_reactions(),
            (i as nat) < self.num_species(),
        ensures
            d == self.updates()[j as int][i as int],
    {
        proof {
            assert(self.updates()[j as int] == self.stoich_rows@[j as int]@);
            assert(self.updates()[j as int].len() == self.num_species());
        }
        self.stoich_rows[j][i]
    }
}

} // verus!
