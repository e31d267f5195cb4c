use vstd::prelude::*;

verus! {

/// A named group of feeds; the name is never empty.
#[derive(Debug, Clone)]
pub struct Category {
    name: String,
}

impl View for Category {
    type V = Seq<char>;

    closed spec fn view(&self) -> Seq<char> {
        self.name@
    }
}

impl Category {
    pub fn new(name: &str) -> (r: Option<Category>)
        ensures
            r is Some == (name@.len() > 0),
            r matches Some(c) ==> c@ == name@,
    {
        let name = name.to_string();
        let empty = String::new();
        assert(name@.len() == 0 ==> name@ =~= empty@);
        if name == empty {
            None
        } else {
            Some(Category { name })
        }
    }

    pub fn as_str(&self) -> (r: &str)
        ensures
            r@ == self@,
    {
        self.name.as_str()
    }
}

/// The category of feeds that were given none.
pub fn default_category() -> (r: Category)
    ensures
        r@ == "default"@,
{
    proof {
        reveal_strlit("default");
    }
    match Category::new("default") {
        Some(c) => c,
        None => Category { name: "default".to_string() },
    }
}

} // verus!
