use ornaguide::error::Kind;
use ornaguide::pets::admin::{AdminPet, AdminPets, CostType};

fn pet(id: u32, uri: &str) -> AdminPet {
    AdminPet { id, codex_uri: uri.to_string(), name: format!("Pet {id}"), ..Default::default() }
}

#[test]
fn pet_form_roundtrip() {
    let p = AdminPet {
        id: 3,
        codex_uri: "/codex/followers/cat/".to_string(),
        name: "Cat".to_string(),
        tier: 8,
        attack: 40,
        cost: 123456,
        cost_type: CostType::Orn,
        limited: true,
        limited_details: "Spring".to_string(),
        skills: vec![5, 6],
        ..Default::default()
    };
    let form = p.clone().to_form();
    assert!(form.fields.contains(&("cost_type".to_string(), "1".to_string())));
    let back = AdminPet::try_from(form).unwrap();
    assert_eq!(back.id, 0);
    assert_eq!(back.cost_type, CostType::Orn);
    assert_eq!(back.cost, 123456);
    assert_eq!(back.skills, vec![5, 6]);
    assert!(back.limited);
    assert_eq!(back.limited_details, "Spring");
}

#[test]
fn pet_lookup() {
    let pets = AdminPets { pets: vec![pet(1, ""), pet(2, "/codex/followers/cat/")] };
    assert_eq!(pets.find_by_slug("cat").unwrap().id, 2);
    assert!(pets.find_by_slug("dog").is_none());
    assert_eq!(pets.find_by_id(1).unwrap().id, 1);
    let e = pets.get_by_id(9).err().unwrap();
    assert!(matches!(&e.kind, Kind::Misc(m) if m == "No match for admin pet with id #9"));
    let e = pets.get_by_slug("dog").err().unwrap();
    assert!(matches!(&e.kind, Kind::Misc(m) if m == "No match for admin pet with codex slug 'dog'"));
}
