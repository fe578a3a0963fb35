use vstd::prelude::*;

verus! {

/// A crop that can be bought, planted and sold when it is ripe.
#[derive(Debug)]
pub struct Crop {
    /// Display name; not required to be unique.
    pub name: String,
    /// Price of one unit of seed.
    pub cost: u32,
    /// Time the crop takes to ripen.
    pub time: u32,
    /// Revenue of one ripe unit.
    pub sale_price: u32,
}

impl Crop {
    pub fn new(name: String, cost: u32, time: u32, sale_price: u32) -> (r: Crop)
        ensures
            r.name@ == name@,
            r.cost == cost,
            r.time == time,
            r.sale_price == sale_price,
    {
        Crop { name, cost, time, sale_price }
    }

    pub fn name(&self) -> (r: &str)
        ensures
            r@ == self.name@,
    {
        self.name.as_str()
    }

    pub fn cost(&self) -> (r: &u32)
        ensures
            *r == self.cost,
    {
        &self.cost
    }

    pub fn time(&self) -> (r: &u32)
        ensures
            *r == self.time,
    {
        &self.time
    }

    pub fn sale_price(&self) -> (r: &u32)
        ensures
            *r == self.sale_price,
    {
        &self.sale_price
    }
}

/// `k` indexes a crop of the highest sale price, and no earlier crop sells as high.
pub open spec fn is_first_highest(crops: Seq<Crop>, k: int) -> bool {
    &&& 0 <= k < crops.len()
    &&& forall|j: int| 0 <= j < crops.len() ==> crops[j].sale_price <= crops[k].sale_price
    &&& forall|j: int| 0 <= j < k ==> crops[j].sale_price < crops[k].sale_price
}

impl Crop {
    /// The crop that sells for the most; of several, the first.
    pub fn get_highest_sale_price(crops: &[Crop]) -> (r: &Crop)
        requires
            crops@.len() > 0,
        ensures
            exists|k: int| is_first_highest(crops@, k) && *r == crops@[k],
    {
        let mut best: usize = 0;
        let mut i: usize = 1;
        while i < crops.len()
            invariant
                1 <= i <= crops@.len(),
                0 <= best < i,
                forall|j: int| 0 <= j < i ==> crops@[j].sale_price <= crops@[best as int].sale_price,
                forall|j: int| 0 <= j < best ==> crops@[j].sale_price < crops@[best as int].sale_price,
            decreases crops@.len() - i,
        {
            if crops[i].sale_price > crops[best].sale_price {
                best = i;
            }
            i += 1;
        }
        assert(is_first_highest(crops@, best as int));
        &crops[best]
    }
}

impl PartialEq for Crop {
    fn eq(&self, other: &Crop) -> (r: bool)
        ensures
            r == (self.name@ == other.name@ && self.cost == other.cost && self.time == other.time
                && self.sale_price == other.sale_price),
    {
        self.name == other.name && self.cost == other.cost && self.time == other.time
            && self.sale_price == other.sale_price
    }
}

impl vstd::std_specs::cmp::PartialEqSpecImpl for Crop {
    open spec fn obeys_eq_spec() -> bool {
        true
    }

    open spec fn eq_spec(&self, other: &Crop) -> bool {
        self.name@ == other.name@ && self.cost == other.cost && self.time == other.time
            && self.sale_price == other.sale_price
    }
}

/// The crops that a farm offers.
pub struct Farm {
    crops: Vec<Crop>,
}

impl Farm {
    pub fn new(crops: Vec<Crop>) -> (r: Farm)
        ensures
            r.crops_view() == crops@,
    {
        Farm { crops }
    }

    pub closed spec fn crops_view(&self) -> Seq<Crop> {
        self.crops@
    }

    pub fn crops(&self) -> (r: &[Crop])
        ensures
            r@ == self.crops_view(),
    {
        self.crops.as_slice()
    }
}

} // verus!
