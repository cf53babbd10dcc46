//! The post search: the SQL text of the listing and count queries built
//! from the search form's filters.

use vstd::prelude::*;
use crate::cities::{CityTable, city_column_spec};
use crate::text::{concat3, i16_to_decimal, join, join_strings, push_string, signed_decimal, views};

verus! {

/// The optional filters of the search form.
pub struct SearchFilters {
    pub animal: Option<String>,
    pub breed: Option<String>,
    pub age: Option<String>,
    pub age_type: Option<String>,
    pub city: Option<String>,
    pub price_min: Option<i16>,
    pub price_max: Option<i16>,
    pub post_type: Option<String>,
    pub sex: Option<String>,
    pub page: Option<i16>,
}

/// `prefix` followed by `v` and a closing quote.
pub open spec fn quoted(prefix: Seq<char>, v: Seq<char>) -> Seq<char> {
    prefix + v + "'"@
}

/// The conditions of the search, in the order they are added: animal
/// (unless `all`), breed (substring, case-insensitive), age bound and age
/// type (unless the age type is `all`), city, price bounds, post type, sex.
pub open spec fn search_conditions(f: SearchFilters, cities: CityTable) -> Seq<Seq<char>> {
    let c0 = Seq::<Seq<char>>::empty();
    let c1 = match f.animal {
        Some(a) => if a@ != "all"@ { c0.push(quoted("animal = '"@, a@)) } else { c0 },
        None => c0,
    };
    let c2 = match f.breed {
        Some(b) => c1.push("breed ILIKE '%"@ + b@ + "%'"@),
        None => c1,
    };
    let c3 = match f.age_type {
        Some(t) => if t@ != "all"@ {
            let with_age = match f.age {
                Some(a) => c2.push(quoted("age <= '"@, a@)),
                None => c2,
            };
            with_age.push(quoted("age_type = '"@, t@))
        } else {
            c2
        },
        None => c2,
    };
    let c4 = match f.city {
        Some(k) => c3.push(quoted("city = '"@, city_column_spec(cities, k@))),
        None => c3,
    };
    let c5 = match f.price_min {
        Some(p) => c4.push("price >= "@ + signed_decimal(p as int)),
        None => c4,
    };
    let c6 = match f.price_max {
        Some(p) => c5.push("price <= "@ + signed_decimal(p as int)),
        None => c5,
    };
    let c7 = match f.post_type {
        Some(t) => c6.push(quoted("post_type = '"@, t@)),
        None => c6,
    };
    match f.sex {
        Some(s) => c7.push(quoted("sex = '"@, s@)),
        None => c7,
    }
}

/// An age type other than `all` with an age bounds the search by age,
/// whatever the age type: `age <= '<age>'` stands among the conditions,
/// immediately followed by `age_type = '<age type>'`.
pub proof fn age_bound_before_age_type(f: SearchFilters, cities: CityTable)
    requires
        f.age_type is Some,
        f.age_type->0@ != "all"@,
        f.age is Some,
    ensures
        exists|i: int|
            #![trigger search_conditions(f, cities)[i]]
            0 <= i && i + 1 < search_conditions(f, cities).len()
                && search_conditions(f, cities)[i] == "age <= '"@ + f.age->0@ + "'"@
                && search_conditions(f, cities)[i + 1] == "age_type = '"@ + f.age_type->0@ + "'"@,
{
    let c = search_conditions(f, cities);
    let k: int = (if f.animal is Some && f.animal->0@ != "all"@ { 1int } else { 0int })
        + (if f.breed is Some { 1int } else { 0int });
    assert(c[k] == "age <= '"@ + f.age->0@ + "'"@);
    assert(c[k + 1] == "age_type = '"@ + f.age_type->0@ + "'"@);
}

/// One condition per given filter: an animal other than `all`, a breed, an
/// age type other than `all` (and with it the age, when given), a city,
/// each price bound, a post type and a sex each add their condition, and
/// nothing else does.
pub proof fn one_condition_per_filter(f: SearchFilters, cities: CityTable)
    ensures
        search_conditions(f, cities).len() == (if f.animal is Some && f.animal->0@ != "all"@ { 1int } else { 0int })
            + (if f.breed is Some { 1int } else { 0int })
            + (if f.age_type is Some && f.age_type->0@ != "all"@ {
                if f.age is Some { 2int } else { 1int }
            } else {
                0int
            })
            + (if f.city is Some { 1int } else { 0int })
            + (if f.price_min is Some { 1int } else { 0int })
            + (if f.price_max is Some { 1int } else { 0int })
            + (if f.post_type is Some { 1int } else { 0int })
            + (if f.sex is Some { 1int } else { 0int }),
        f.animal is Some && f.animal->0@ != "all"@
            ==> search_conditions(f, cities).contains("animal = '"@ + f.animal->0@ + "'"@),
        f.breed is Some ==> search_conditions(f, cities).contains("breed ILIKE '%"@ + f.breed->0@ + "%'"@),
        f.age_type is Some && f.age_type->0@ != "all"@
            ==> search_conditions(f, cities).contains("age_type = '"@ + f.age_type->0@ + "'"@),
        f.city is Some ==> search_conditions(f, cities).contains(
            "city = '"@ + city_column_spec(cities, f.city->0@) + "'"@,
        ),
        f.price_min is Some ==> search_conditions(f, cities).contains(
            "price >= "@ + signed_decimal(f.price_min->0 as int),
        ),
        f.price_max is Some ==> search_conditions(f, cities).contains(
            "price <= "@ + signed_decimal(f.price_max->0 as int),
        ),
        f.post_type is Some ==> search_conditions(f, cities).contains("post_type = '"@ + f.post_type->0@ + "'"@),
        f.sex is Some ==> search_conditions(f, cities).contains("sex = '"@ + f.sex->0@ + "'"@),
{
    let c = search_conditions(f, cities);
    let na: int = if f.animal is Some && f.animal->0@ != "all"@ { 1int } else { 0int };
    let nb: int = if f.breed is Some { 1int } else { 0int };
    let nt: int = if f.age_type is Some && f.age_type->0@ != "all"@ {
        if f.age is Some { 2int } else { 1int }
    } else {
        0int
    };
    let nc: int = if f.city is Some { 1int } else { 0int };
    let n1: int = if f.price_min is Some { 1int } else { 0int };
    let n2: int = if f.price_max is Some { 1int } else { 0int };
    let np: int = if f.post_type is Some { 1int } else { 0int };
    if f.animal is Some && f.animal->0@ != "all"@ {
        assert(c[0] == "animal = '"@ + f.animal->0@ + "'"@);
    }
    if f.breed is Some {
        assert(c[na] == "breed ILIKE '%"@ + f.breed->0@ + "%'"@);
    }
    if f.age_type is Some && f.age_type->0@ != "all"@ {
        assert(c[na + nb + nt - 1] == "age_type = '"@ + f.age_type->0@ + "'"@);
    }
    if f.city is Some {
        assert(c[na + nb + nt] == "city = '"@ + city_column_spec(cities, f.city->0@) + "'"@);
    }
    if f.price_min is Some {
        assert(c[na + nb + nt + nc] == "price >= "@ + signed_decimal(f.price_min->0 as int));
    }
    if f.price_max is Some {
        assert(c[na + nb + nt + nc + n1] == "price <= "@ + signed_decimal(f.price_max->0 as int));
    }
    if f.post_type is Some {
        assert(c[na + nb + nt + nc + n1 + n2] == "post_type = '"@ + f.post_type->0@ + "'"@);
    }
    if f.sex is Some {
        assert(c[na + nb + nt + nc + n1 + n2 + np] == "sex = '"@ + f.sex->0@ + "'"@);
    }
}

/// ` WHERE c1 AND c2 ...`, or nothing when there are no conditions.
pub open spec fn where_clause(conds: Seq<Seq<char>>) -> Seq<char> {
    if conds.len() == 0 {
        Seq::empty()
    } else {
        " WHERE "@ + join(conds, " AND "@)
    }
}

/// The listing query: newest first, one post per page, skipping
/// `page - 1` posts when a page is given.
pub open spec fn search_query_spec(f: SearchFilters, cities: CityTable) -> Seq<char> {
    "SELECT * FROM posts"@ + where_clause(search_conditions(f, cities))
        + " ORDER BY time_posted DESC LIMIT 1"@ + match f.page {
        Some(p) => " OFFSET "@ + signed_decimal(p - 1),
        None => Seq::empty(),
    }
}

/// The query counting every post that matches the filters.
pub open spec fn count_query_spec(f: SearchFilters, cities: CityTable) -> Seq<char> {
    "SELECT COUNT(*) FROM posts"@ + where_clause(search_conditions(f, cities))
}

/// The conditions of the search, as `search_conditions` lists them.
pub fn build_conditions(f: &SearchFilters, cities: &CityTable) -> (conds: Vec<String>)
    ensures
        views(conds@) == search_conditions(*f, *cities),
{
    let mut conds: Vec<String> = Vec::new();
    assert(views(conds@) =~= Seq::<Seq<char>>::empty());
    let all = String::from_str("all");
    if let Some(a) = &f.animal {
        if *a != all {
            push_string(&mut conds, concat3("animal = '", a.as_str(), "'"));
        }
    }
    if let Some(b) = &f.breed {
        push_string(&mut conds, concat3("breed ILIKE '%", b.as_str(), "%'"));
    }
    if let Some(t) = &f.age_type {
        if *t != all {
            if let Some(a) = &f.age {
                push_string(&mut conds, concat3("age <= '", a.as_str(), "'"));
            }
            push_string(&mut conds, concat3("age_type = '", t.as_str(), "'"));
        }
    }
    if let Some(k) = &f.city {
        let col = cities.city_column(k);
        push_string(&mut conds, concat3("city = '", col.as_str(), "'"));
    }
    if let Some(p) = &f.price_min {
        let d = i16_to_decimal(*p);
        let mut c = String::from_str("price >= ");
        c.append(d.as_str());
        push_string(&mut conds, c);
    }
    if let Some(p) = &f.price_max {
        let d = i16_to_decimal(*p);
        let mut c = String::from_str("price <= ");
        c.append(d.as_str());
        push_string(&mut conds, c);
    }
    if let Some(t) = &f.post_type {
        push_string(&mut conds, concat3("post_type = '", t.as_str(), "'"));
    }
    if let Some(s) = &f.sex {
        push_string(&mut conds, concat3("sex = '", s.as_str(), "'"));
    }
    conds
}

/// The listing query and the count query of a search.  A page number of
/// `i16::MIN` has no previous page and is not accepted.
pub fn build_search_queries(f: &SearchFilters, cities: &CityTable) -> (r: (String, String))
    requires
        f.page != Some(i16::MIN),
    ensures
        r.0@ == search_query_spec(*f, *cities),
        r.1@ == count_query_spec(*f, *cities),
{
    let conds = build_conditions(f, cities);
    let mut query = String::from_str("SELECT * FROM posts");
    let mut count_query = String::from_str("SELECT COUNT(*) FROM posts");
    if conds.len() > 0 {
        let joined = join_strings(&conds, " AND ");
        query.append(" WHERE ");
        query.append(joined.as_str());
        count_query.append(" WHERE ");
        count_query.append(joined.as_str());
    } else {
        assert(search_conditions(*f, *cities).len() == 0);
    }
    query.append(" ORDER BY time_posted DESC LIMIT 1");
    if let Some(page) = &f.page {
        let offset = i16_to_decimal(*page - 1);
        query.append(" OFFSET ");
        query.append(offset.as_str());
    } else {
        assert(query@ + Seq::<char>::empty() =~= query@);
    }
    (query, count_query)
}

} // verus!
