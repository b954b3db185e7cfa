use vstd::prelude::*;

verus! {

/// One value of a row as the store hands it back. A 32-bit float travels as
/// its IEEE-754 bit pattern; a value of any other kind is `Other`.
pub enum Cell {
    Uint64(u64),
    Str(String),
    Floating32(u32),
    Other,
}

/// The body of a create request. `price` is the bit pattern of a 32-bit float.
pub struct ProductCreateModel {
    pub name: String,
    pub price: u32,
}

/// The body of an update request. `price` is the bit pattern of a 32-bit float.
pub struct ProductUpdateModel {
    pub name: String,
    pub price: u32,
}

/// One product as a single-item read renders it.
pub struct ProductDetailsModel {
    pub id: u64,
    pub name: String,
    pub price: u32,
}

/// One product as the listing renders it: its id and name, and nothing else.
pub struct ProductListModel {
    pub id: u64,
    pub name: String,
}

/// The detail that a `(name, price)` row of product `id` reads as, if its
/// first two values have those kinds.
pub open spec fn detail_of_row(id: u64, row: Seq<Cell>) -> Option<ProductDetailsModel> {
    if row.len() >= 2 && row[0] is Str && row[1] is Floating32 {
        Some(ProductDetailsModel { id, name: row[0]->Str_0, price: row[1]->Floating32_0 })
    } else {
        None
    }
}

/// The summary that an `(id, name)` row reads as, if its first two values have
/// those kinds.
pub open spec fn summary_of_row(row: Seq<Cell>) -> Option<ProductListModel> {
    if row.len() >= 2 && row[0] is Uint64 && row[1] is Str {
        Some(ProductListModel { id: row[0]->Uint64_0, name: row[1]->Str_0 })
    } else {
        None
    }
}

impl ProductDetailsModel {
    /// Reads product `id` from a row whose first value is its name and whose
    /// second is its price.
    pub fn from_row(id: u64, row: &Vec<Cell>) -> (r: Result<ProductDetailsModel, ()>)
        ensures
            match detail_of_row(id, row@) {
                Some(d) => r == Ok::<ProductDetailsModel, ()>(d),
                None => r is Err,
            },
    {
        if row.len() < 2 {
            return Err(());
        }
        match (&row[0], &row[1]) {
            (Cell::Str(name), Cell::Floating32(price)) => {
                Ok(ProductDetailsModel { id, name: name.clone(), price: *price })
            },
            _ => Err(()),
        }
    }
}

impl ProductListModel {
    /// Reads a summary from a row whose first value is the id and whose second
    /// is the name.
    pub fn from_row(row: &Vec<Cell>) -> (r: Result<ProductListModel, ()>)
        ensures
            match summary_of_row(row@) {
                Some(p) => r == Ok::<ProductListModel, ()>(p),
                None => r is Err,
            },
    {
        if row.len() < 2 {
            return Err(());
        }
        match (&row[0], &row[1]) {
            (Cell::Uint64(id), Cell::Str(name)) => Ok(ProductListModel { id: *id, name: name.clone() }),
            _ => Err(()),
        }
    }
}

} // verus!
