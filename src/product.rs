use vstd::prelude::*;
use crate::decimal::{i32_literal, parse_i32, parse_price_cents, price_cents};
use crate::error::LocalError;

verus! {

/// A product row of the ledger. The price is held in cents, so it always
/// has exactly two decimals.
#[derive(Clone, Debug)]
pub struct Product {
    pub id: i32,
    pub name: String,
    pub image: Option<String>,
    pub category: String,
    pub price_cents: i64,
    pub count: i32,
}

/// The mathematical value of a product.
pub struct ProductV {
    pub id: i32,
    pub name: Seq<char>,
    pub image: Option<Seq<char>>,
    pub category: Seq<char>,
    pub price_cents: i64,
    pub count: i32,
}

pub open spec fn opt_view(o: Option<String>) -> Option<Seq<char>> {
    match o {
        Some(s) => Some(s@),
        None => None,
    }
}

impl View for Product {
    type V = ProductV;

    open spec fn view(&self) -> ProductV {
        ProductV {
            id: self.id,
            name: self.name@,
            image: opt_view(self.image),
            category: self.category@,
            price_cents: self.price_cents,
            count: self.count,
        }
    }
}

fn clone_opt(o: &Option<String>) -> (r: Option<String>)
    ensures
        opt_view(r) == opt_view(*o),
{
    match o {
        Some(s) => Some(s.clone()),
        None => None,
    }
}

impl Product {
    /// A product is available while its count is positive.
    pub fn is_available(&self) -> (r: bool)
        ensures
            r == (self.count > 0),
    {
        self.count > 0
    }

    /// A copy with the same value.
    pub fn duplicate(&self) -> (r: Product)
        ensures
            r@ == self@,
    {
        Product {
            id: self.id,
            name: self.name.clone(),
            image: clone_opt(&self.image),
            category: self.category.clone(),
            price_cents: self.price_cents,
            count: self.count,
        }
    }
}

/// A field value of a request body, as far as the product rules read it.
/// A number is kept as its decimal text.
#[derive(Clone, Debug)]
pub enum FieldValue {
    Null,
    Bool(bool),
    Number(String),
    Text(String),
    Other,
}

/// One recognized field's effect on a product: the new value, or
/// `WrongParameters` when the value has the wrong type. An unrecognized key
/// leaves the product as it is.
pub open spec fn apply_field(p: ProductV, key: Seq<char>, v: FieldValue) -> Result<ProductV, LocalError> {
    if key == "name"@ {
        match v {
            FieldValue::Text(s) => Ok(ProductV { name: s@, ..p }),
            _ => Err(LocalError::WrongParameters),
        }
    } else if key == "image"@ {
        match v {
            FieldValue::Text(s) => Ok(ProductV { image: Some(s@), ..p }),
            _ => Err(LocalError::WrongParameters),
        }
    } else if key == "count"@ {
        match v {
            FieldValue::Number(t) => match i32_literal(t@) {
                Some(c) => Ok(ProductV { count: c, ..p }),
                None => Err(LocalError::WrongParameters),
            },
            _ => Err(LocalError::WrongParameters),
        }
    } else if key == "price"@ {
        match v {
            FieldValue::Number(t) => match price_cents(t@) {
                Some(c) => Ok(ProductV { price_cents: c, ..p }),
                None => Err(LocalError::WrongParameters),
            },
            _ => Err(LocalError::WrongParameters),
        }
    } else if key == "category"@ {
        match v {
            FieldValue::Text(s) => Ok(ProductV { category: s@, ..p }),
            _ => Err(LocalError::WrongParameters),
        }
    } else {
        Ok(p)
    }
}

/// The fields applied in order; the first bad one aborts the whole update.
pub open spec fn apply_fields(p: ProductV, fs: Seq<(String, FieldValue)>) -> Result<ProductV, LocalError>
    decreases fs.len(),
{
    if fs.len() == 0 {
        Ok(p)
    } else {
        match apply_fields(p, fs.drop_last()) {
            Ok(q) => apply_field(q, fs.last().0@, fs.last().1),
            Err(e) => Err(e),
        }
    }
}

fn apply_one(p: Product, key: &String, v: &FieldValue) -> (r: Result<Product, LocalError>)
    ensures
        match r {
            Ok(q) => apply_field(p@, key@, *v) == Ok::<ProductV, LocalError>(q@),
            Err(e) => apply_field(p@, key@, *v) == Err::<ProductV, LocalError>(e),
        },
{
    let mut p = p;
    if *key == String::from_str("name") {
        match v {
            FieldValue::Text(s) => {
                p.name = s.clone();
                Ok(p)
            },
            _ => Err(LocalError::WrongParameters),
        }
    } else if *key == String::from_str("image") {
        match v {
            FieldValue::Text(s) => {
                p.image = Some(s.clone());
                Ok(p)
            },
            _ => Err(LocalError::WrongParameters),
        }
    } else if *key == String::from_str("count") {
        match v {
            FieldValue::Number(t) => match parse_i32(t.as_str()) {
                Some(c) => {
                    p.count = c;
                    Ok(p)
                },
                None => Err(LocalError::WrongParameters),
            },
            _ => Err(LocalError::WrongParameters),
        }
    } else if *key == String::from_str("price") {
        match v {
            FieldValue::Number(t) => match parse_price_cents(t.as_str()) {
                Some(c) => {
                    p.price_cents = c;
                    Ok(p)
                },
                None => Err(LocalError::WrongParameters),
            },
            _ => Err(LocalError::WrongParameters),
        }
    } else if *key == String::from_str("category") {
        match v {
            FieldValue::Text(s) => {
                p.category = s.clone();
                Ok(p)
            },
            _ => Err(LocalError::WrongParameters),
        }
    } else {
        Ok(p)
    }
}

/// Applies the recognized fields of an update to a product: all of them, or
/// none when one has a value of the wrong type.
pub fn apply_update(p: &Product, fields: &Vec<(String, FieldValue)>) -> (r: Result<Product, LocalError>)
    ensures
        match r {
            Ok(q) => apply_fields(p@, fields@) == Ok::<ProductV, LocalError>(q@),
            Err(e) => apply_fields(p@, fields@) == Err::<ProductV, LocalError>(e),
        },
{
    let mut cur = p.duplicate();
    let mut i: usize = 0;
    while i < fields.len()
        invariant
            i <= fields@.len(),
            apply_fields(p@, fields@.take(i as int)) == Ok::<ProductV, LocalError>(cur@),
        decreases fields@.len() - i,
    {
        assert(fields@.take(i + 1).drop_last() =~= fields@.take(i as int));
        let (key, v) = (&fields[i].0, &fields[i].1);
        match apply_one(cur, key, v) {
            Ok(q) => {
                cur = q;
            },
            Err(e) => {
                proof {
                    lemma_apply_fields_err_sticks(p@, fields@, i as int + 1, e);
                }
                return Err(e);
            },
        }
        i = i + 1;
    }
    assert(fields@.take(i as int) =~= fields@);
    Ok(cur)
}

proof fn lemma_apply_fields_err_sticks(p: ProductV, fs: Seq<(String, FieldValue)>, i: int, e: LocalError)
    requires
        0 <= i <= fs.len(),
        apply_fields(p, fs.take(i)) == Err::<ProductV, LocalError>(e),
    ensures
        apply_fields(p, fs) == Err::<ProductV, LocalError>(e),
    decreases fs.len() - i,
{
    if i < fs.len() {
        assert(fs.take(i + 1).drop_last() =~= fs.take(i));
        lemma_apply_fields_err_sticks(p, fs, i + 1, e);
    } else {
        assert(fs.take(i) =~= fs);
    }
}

pub open spec fn has_key(fs: Seq<(String, FieldValue)>, k: Seq<char>) -> bool {
    exists|i: int| 0 <= i < fs.len() && (#[trigger] fs[i]).0@ == k
}

/// Whether a field named `k` is present.
pub fn contains_key(fields: &Vec<(String, FieldValue)>, k: &str) -> (r: bool)
    ensures
        r == has_key(fields@, k@),
{
    let key = String::from_str(k);
    let mut i: usize = 0;
    while i < fields.len()
        invariant
            i <= fields@.len(),
            key@ == k@,
            forall|j: int| 0 <= j < i ==> (#[trigger] fields@[j]).0@ != k@,
        decreases fields@.len() - i,
    {
        if fields[i].0 == key {
            return true;
        }
        i = i + 1;
    }
    false
}

/// The product that a creation starts from before its fields are applied:
/// no image, a count of 0. The ledger assigns the identifier.
pub open spec fn blank_product() -> ProductV {
    ProductV { id: 0, name: Seq::empty(), image: None, category: Seq::empty(), price_cents: 0, count: 0 }
}

pub open spec fn new_product_spec(fs: Seq<(String, FieldValue)>) -> Result<ProductV, LocalError> {
    if has_key(fs, "name"@) && has_key(fs, "price"@) && has_key(fs, "category"@) {
        apply_fields(blank_product(), fs)
    } else {
        Err(LocalError::WrongParameters)
    }
}

/// Reads the fields of a new product. Name, price and category are
/// required; count defaults to 0; the price is rounded half up to cents.
/// The result carries identifier 0 until the ledger assigns one.
pub fn parse_new_product(fields: &Vec<(String, FieldValue)>) -> (r: Result<Product, LocalError>)
    ensures
        match r {
            Ok(q) => new_product_spec(fields@) == Ok::<ProductV, LocalError>(q@),
            Err(e) => new_product_spec(fields@) == Err::<ProductV, LocalError>(e),
        },
{
    if !contains_key(fields, "name") || !contains_key(fields, "price") || !contains_key(
        fields,
        "category",
    ) {
        return Err(LocalError::WrongParameters);
    }
    let blank = Product {
        id: 0,
        name: String::new(),
        image: None,
        category: String::new(),
        price_cents: 0,
        count: 0,
    };
    assert(blank@ == blank_product());
    apply_update(&blank, fields)
}

/// A product as listed: `available` is computed from the count when read.
pub struct Listing {
    pub product: Product,
    pub available: bool,
}

/// Lists products with their availability.
pub fn list_products(products: Vec<Product>) -> (r: Vec<Listing>)
    ensures
        r@.len() == products@.len(),
        forall|i: int|
            0 <= i < r@.len() ==> (#[trigger] r@[i]).product@ == products@[i]@ && r@[i].available
                == (products@[i].count > 0),
{
    let mut out: Vec<Listing> = Vec::new();
    let mut i: usize = 0;
    while i < products.len()
        invariant
            i <= products@.len(),
            out@.len() == i,
            forall|j: int|
                0 <= j < i ==> (#[trigger] out@[j]).product@ == products@[j]@ && out@[j].available
                    == (products@[j].count > 0),
        decreases products@.len() - i,
    {
        let p = products[i].duplicate();
        let available = p.is_available();
        out.push(Listing { product: p, available });
        i = i + 1;
    }
    out
}

} // verus!
