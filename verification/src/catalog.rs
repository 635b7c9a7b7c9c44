//! The events that the game is played with.
use vstd::prelude::*;
use crate::qte::{QteEffect, QTE};

verus! {

/// The question of the event at place 0 of the catalog.
pub const TEXT_0: &'static str = "C'est l'hiver. Il fait froid. Est-ce que les employés ont le droit à du chauffage ?";

/// What the first answer to the event at place 0 leads to.
pub const EXPLICATION1_0: &'static str = "Après avoir vu votre employé essayé de travaillé avec des moufles, vous comprenez qu'il fait peut-être trop froid. Les employés vous déteste un peu plus";

/// What the second answer to the event at place 0 leads to.
pub const EXPLICATION2_0: &'static str = "Le chauffage coûte cher, mais vos employés resteront peut-être plus longtemps.";

/// The question of the event at place 1 of the catalog.
pub const TEXT_1: &'static str = "Vos employés ont faim. Faire une pause déjeuner ?";

/// What the first answer to the event at place 1 leads to.
pub const EXPLICATION1_1: &'static str = "Vos employés ont pu manger, mais vu la raclette qu'ils ont mangé, ils perdent toute leur énergie";

/// What the second answer to the event at place 1 leads to.
pub const EXPLICATION2_1: &'static str = "Vous êtes si prévenant de penser à leur ligne !";

/// The question of the event at place 2 of the catalog.
pub const TEXT_2: &'static str = "C'est l'été. Il fait chaud. Très chaud. Est-ce que vos employés ont le droit à la clim ?";

/// What the first answer to the event at place 2 leads to.
pub const EXPLICATION1_2: &'static str = "Vos employés sont au frais, pour le moment. Pour votre porte-monnaie par contre, c'est chaud.";

/// What the second answer to the event at place 2 leads to.
pub const EXPLICATION2_2: &'static str = "Un employé est mort à cause de la chaleur. Cependant, grâce aux économies, il devrait être possible de faire un nouveau contrat";

/// The question of the event at place 3 of the catalog.
pub const TEXT_3: &'static str = "Un stagiaire passe dans le couloir, le capturez ?";

/// What the first answer to the event at place 3 leads to.
pub const EXPLICATION1_3: &'static str = "Après avoir utilisé votre meilleur lasso, le stagiaire fini dans la pièce. A vous de le gérez ! ";

/// What the second answer to the event at place 3 leads to.
pub const EXPLICATION2_3: &'static str = "Vous l'avez laissé passer";

/// The question of the event at place 4 of the catalog.
pub const TEXT_4: &'static str = "C'est Nöel, vos employés demande un jour de vancances... Leur accordé ?";

/// What the first answer to the event at place 4 leads to.
pub const EXPLICATION1_4: &'static str = "Vos employés sont remplis d'espoir face à cette nouvelle, ils sont également très satisfait.";

/// What the second answer to the event at place 4 leads to.
pub const EXPLICATION2_4: &'static str = "Vos employés perdent tout espoir et son mécontent";

/// The question of the event at place 5 of the catalog.
pub const TEXT_5: &'static str = "Après 80 semaines intensives, vos employés osent demandé un jour de vacances. Leur accorder ?";

/// What the first answer to the event at place 5 leads to.
pub const EXPLICATION1_5: &'static str = "Vos employé reviennent plus reposé, mais celà à coûté à l'entreprise";

/// What the second answer to the event at place 5 leads to.
pub const EXPLICATION2_5: &'static str = "Vos employés sont terriblement fatigués.";

/// The question of the event at place 6 of the catalog.
pub const TEXT_6: &'static str = "Un stagiaire demande à vous voir. Une fois dans votre bureau, il se montre... sugestif quand à ses capacités. L'embaucher ?";

/// What the first answer to the event at place 6 leads to.
pub const EXPLICATION1_6: &'static str = "Vous passez un très bon moment et de plus, vous venez de gagner un employé fidèle";

/// What the second answer to the event at place 6 leads to.
pub const EXPLICATION2_6: &'static str = "Vos employés, qui avaient eu vent de l'affaire, apprécie votre comportement";

/// The question of the event at place 7 of the catalog.
pub const TEXT_7: &'static str = "Une employée vous menace de vous dénoncer au syndicat. Voulez-vous l'élimiée ?";

/// What the first answer to the event at place 7 leads to.
pub const EXPLICATION1_7: &'static str = "Bien joué ! Des décisions difficile doivent être prise en tant que manager pour la bonne santé de la boite. Vos employés perdent espoir, mais le syndicat ne sera pas au courant. ";

/// What the second answer to the event at place 7 leads to.
pub const EXPLICATION2_7: &'static str = "Malheureusement, votre big boss condamne votre inaction et se charge lui même d'élimier la menace. Mais puisque qu'il n'a pas votre expérience dans le métier, le résultat est brouillon et vos employés l'apprennent.";

/// The question of the event at place 8 of the catalog.
pub const TEXT_8: &'static str = "Vous suprenez un employé en train de se détendre pendant sa pause en regardant internet. Installer un firewall afin de bloquer tous les sites de distraction ?";

/// What the first answer to the event at place 8 leads to.
pub const EXPLICATION1_8: &'static str = "Vos employés sont très insatisfait, mais leur énergie augmente grâce au sevrage que vous leur imposer. Ah ! et votre porte-monnaie en a pris un coup aussi.";

/// What the second answer to the event at place 8 leads to.
pub const EXPLICATION2_8: &'static str = "Vos employés apprécie ce geste de clémence";

/// The question of the event at place 9 of the catalog.
pub const TEXT_9: &'static str = "L'alarme incendie retenti, voulez-vous évacuer vos employés ?";

/// What the first answer to the event at place 9 leads to.
pub const EXPLICATION1_9: &'static str = "Vos employés s'en sortent indemne, contrairement à votre porte-monnaie qui subit ce manque à gagner extrême";

/// What the second answer to the event at place 9 leads to.
pub const EXPLICATION2_9: &'static str = "Le jeu continu d'être développé et avance parfaitement, bien que quelque perte soient à déplorer.";

/// The question of the event at place 10 of the catalog.
pub const TEXT_10: &'static str = "Votre big boss demande ou en est le jeu. Lui mentir ?";

/// What the first answer to the event at place 10 leads to.
pub const EXPLICATION1_10: &'static str = "Une fois votre mensonge terminé, vous êtes obligé d'augmenter encore la productivité, et vos employés osent se plaindre";

/// What the second answer to the event at place 10 leads to.
pub const EXPLICATION2_10: &'static str = "Une fois la vérité étalé, votre boss vous ordonne de passer le temps de travail journalier de 20h à 21h";

/// The question of the event at place 11 of the catalog.
pub const TEXT_11: &'static str = "Mail urgent ! Ouvrir maintenant ?";

/// What the first answer to the event at place 11 leads to.
pub const EXPLICATION1_11: &'static str = "Il ne fallait pas l'ouvrir, il s'agissait d'un virus. Vous achetez un nouveau PC";

/// What the second answer to the event at place 11 leads to.
pub const EXPLICATION2_11: &'static str = "Bien joué, il s'agissait en réalité d'un virus envoyé par vos employés. Vous décidez donc d'en virez un.";

/// The question of the event at place 12 of the catalog.
pub const TEXT_12: &'static str = "Un enfant de 10 ans propose de travailler pour vous. Ses compétences vous impréssionne. L'engagez ?";

/// What the first answer to the event at place 12 leads to.
pub const EXPLICATION1_12: &'static str = "Cet enfant est tout à fait compétent, mais les autres employés n'apprécient pas trop de faire travailler un mineur. Il ne sont jamais content";

/// What the second answer to the event at place 12 leads to.
pub const EXPLICATION2_12: &'static str = "L'enfant repart en pleurant, faisant perdre à vos autres employé tout espoir en vous.";

/// The question of the event at place 13 of the catalog.
pub const TEXT_13: &'static str = "Après de nombreux suicide, vos employés propose de baricader la fenêtre. Les écouter ?";

/// What the first answer to the event at place 13 leads to.
pub const EXPLICATION1_13: &'static str = "Vous payez une entreprise pour baricader cette fenêtre, mais cette dernière ne vient jamais, ayant peur de rester enfermé à jamais.";

/// What the second answer to the event at place 13 leads to.
pub const EXPLICATION2_13: &'static str = "Les employées perdent espoir quand à leur chance de survie.";

/// The question of the event at place 14 of the catalog.
pub const TEXT_14: &'static str = "Le canitinier vient vous voir annonçant que la nourriture est perimé. L'utiliser quand même ?";

/// What the first answer to the event at place 14 leads to.
pub const EXPLICATION1_14: &'static str = "Vos employés tombent malade, et leur énergie en prend un coup";

/// What the second answer to the event at place 14 leads to.
pub const EXPLICATION2_14: &'static str = "Vos employés ont très faim car il ne mange pas";

/// How many events the catalog holds.
pub const CATALOG_LEN: usize = 15;

/// What the first answer to the event at place `i` of the catalog does.
pub open spec fn default_effect_1(i: int) -> QteEffect {
    if i == 0 {
        QteEffect::scaled(-3, 0, 0, 0, 0, 0)
    } else if i == 1 {
        QteEffect::scaled(0, -2, 2, 0, 0, 0)
    } else if i == 2 {
        QteEffect::scaled(0, 0, 0, 0, -200, 0)
    } else if i == 3 {
        QteEffect::scaled(0, 0, 0, 0, 0, 1)
    } else if i == 4 {
        QteEffect::scaled(2, 0, 0, 4, 0, 0)
    } else if i == 5 {
        QteEffect::scaled(0, 1, 0, 0, -100, 0)
    } else if i == 6 {
        QteEffect::scaled(0, 0, 0, 0, 0, 1)
    } else if i == 7 {
        QteEffect::scaled(0, 0, 0, -3, 0, -1)
    } else if i == 8 {
        QteEffect::scaled(-3, 2, 0, 0, -100, 0)
    } else if i == 9 {
        QteEffect::scaled(0, 0, 0, 0, -1000, 0)
    } else if i == 10 {
        QteEffect::scaled(-1, -1, -1, -1, 0, 0)
    } else if i == 11 {
        QteEffect::scaled(0, 0, 0, 0, -100, 0)
    } else if i == 12 {
        QteEffect::scaled(-3, 0, 0, -3, 0, 1)
    } else if i == 13 {
        QteEffect::scaled(0, 0, 0, 0, -300, 0)
    } else {
        QteEffect::scaled(0, -1, 0, 0, 0, 0)
    }
}

/// What the second answer to the event at place `i` of the catalog does.
pub open spec fn default_effect_2(i: int) -> QteEffect {
    if i == 0 {
        QteEffect::scaled(0, 0, 0, 0, -200, 0)
    } else if i == 1 {
        QteEffect::scaled(0, 0, -2, 0, 0, 0)
    } else if i == 2 {
        QteEffect::scaled(0, 0, 0, 0, 200, -1)
    } else if i == 3 {
        QteEffect::scaled(0, 0, 0, 0, 0, 0)
    } else if i == 4 {
        QteEffect::scaled(-2, 0, 0, -4, 0, 0)
    } else if i == 5 {
        QteEffect::scaled(0, -3, 0, 0, 0, 0)
    } else if i == 6 {
        QteEffect::scaled(2, 0, 0, 0, 0, 0)
    } else if i == 7 {
        QteEffect::scaled(-3, 0, 0, -3, 0, -1)
    } else if i == 8 {
        QteEffect::scaled(3, 0, 0, 0, 0, 0)
    } else if i == 9 {
        QteEffect::scaled(0, 0, 0, 0, 0, -2)
    } else if i == 10 {
        QteEffect::scaled(-3, -3, 0, 0, 0, 0)
    } else if i == 11 {
        QteEffect::scaled(0, 0, 0, 0, 0, -1)
    } else if i == 12 {
        QteEffect::scaled(0, 0, 0, -2, 0, 0)
    } else if i == 13 {
        QteEffect::scaled(0, 0, 0, -3, 0, 0)
    } else {
        QteEffect::scaled(0, 0, -3, 0, 0, 0)
    }
}

/// How long the player has to answer the event at place `i` of the catalog,
/// in milliseconds.
pub open spec fn default_time(i: int) -> int {
    if i == 3 {
        2_000
    } else if i == 11 {
        1_500
    } else if i == 14 {
        3_000
    } else {
        4_000
    }
}

/// The question of the event at place `i` of the catalog.
pub open spec fn default_text(i: int) -> Seq<char> {
    if i == 0 {
        TEXT_0@
    } else if i == 1 {
        TEXT_1@
    } else if i == 2 {
        TEXT_2@
    } else if i == 3 {
        TEXT_3@
    } else if i == 4 {
        TEXT_4@
    } else if i == 5 {
        TEXT_5@
    } else if i == 6 {
        TEXT_6@
    } else if i == 7 {
        TEXT_7@
    } else if i == 8 {
        TEXT_8@
    } else if i == 9 {
        TEXT_9@
    } else if i == 10 {
        TEXT_10@
    } else if i == 11 {
        TEXT_11@
    } else if i == 12 {
        TEXT_12@
    } else if i == 13 {
        TEXT_13@
    } else {
        TEXT_14@
    }
}

/// What the first answer to the event at place `i` of the catalog leads to.
pub open spec fn default_explication_1(i: int) -> Seq<char> {
    if i == 0 {
        EXPLICATION1_0@
    } else if i == 1 {
        EXPLICATION1_1@
    } else if i == 2 {
        EXPLICATION1_2@
    } else if i == 3 {
        EXPLICATION1_3@
    } else if i == 4 {
        EXPLICATION1_4@
    } else if i == 5 {
        EXPLICATION1_5@
    } else if i == 6 {
        EXPLICATION1_6@
    } else if i == 7 {
        EXPLICATION1_7@
    } else if i == 8 {
        EXPLICATION1_8@
    } else if i == 9 {
        EXPLICATION1_9@
    } else if i == 10 {
        EXPLICATION1_10@
    } else if i == 11 {
        EXPLICATION1_11@
    } else if i == 12 {
        EXPLICATION1_12@
    } else if i == 13 {
        EXPLICATION1_13@
    } else {
        EXPLICATION1_14@
    }
}

/// What the second answer to the event at place `i` of the catalog leads to.
pub open spec fn default_explication_2(i: int) -> Seq<char> {
    if i == 0 {
        EXPLICATION2_0@
    } else if i == 1 {
        EXPLICATION2_1@
    } else if i == 2 {
        EXPLICATION2_2@
    } else if i == 3 {
        EXPLICATION2_3@
    } else if i == 4 {
        EXPLICATION2_4@
    } else if i == 5 {
        EXPLICATION2_5@
    } else if i == 6 {
        EXPLICATION2_6@
    } else if i == 7 {
        EXPLICATION2_7@
    } else if i == 8 {
        EXPLICATION2_8@
    } else if i == 9 {
        EXPLICATION2_9@
    } else if i == 10 {
        EXPLICATION2_10@
    } else if i == 11 {
        EXPLICATION2_11@
    } else if i == 12 {
        EXPLICATION2_12@
    } else if i == 13 {
        EXPLICATION2_13@
    } else {
        EXPLICATION2_14@
    }
}

/// Whether `qtes` is the catalog: each event with its question, its two
/// answers, what each answer does and leads to, and its time.
pub open spec fn is_default_catalog(qtes: Seq<QTE>) -> bool {
    &&& qtes.len() == CATALOG_LEN
    &&& forall|i: int|
        0 <= i < CATALOG_LEN ==> {
            &&& (#[trigger] qtes[i])@.text == default_text(i)
            &&& qtes[i]@.effect_1 == default_effect_1(i)
            &&& qtes[i]@.effect_2 == default_effect_2(i)
            &&& qtes[i]@.choice1 == "Oui"@
            &&& qtes[i]@.choice2 == "Non"@
            &&& qtes[i]@.explication1 == default_explication_1(i)
            &&& qtes[i]@.explication2 == default_explication_2(i)
            &&& qtes[i]@.time == default_time(i)
        }
}

/// A yes-or-no event.
fn entry(
    text: &str,
    effect_1: QteEffect,
    effect_2: QteEffect,
    explication1: &str,
    explication2: &str,
    time: u64,
) -> (q: QTE)
    ensures
        q@.text == text@,
        q@.effect_1 == effect_1,
        q@.effect_2 == effect_2,
        q@.choice1 == "Oui"@,
        q@.choice2 == "Non"@,
        q@.explication1 == explication1@,
        q@.explication2 == explication2@,
        q@.time == time,
{
    QTE::new(
        text.to_owned(),
        effect_1,
        effect_2,
        "Oui".to_owned(),
        "Non".to_owned(),
        explication1.to_owned(),
        explication2.to_owned(),
        time,
    )
}

/// The catalog of events.
pub fn default_qtes() -> (qtes: Vec<QTE>)
    ensures
        is_default_catalog(qtes@),
{
    let mut qtes: Vec<QTE> = Vec::new();
    qtes.push(entry(TEXT_0, QteEffect::from_tenths(-3, 0, 0, 0, 0, 0), QteEffect::from_tenths(0, 0, 0, 0, -200, 0), EXPLICATION1_0, EXPLICATION2_0, 4_000));
    qtes.push(entry(TEXT_1, QteEffect::from_tenths(0, -2, 2, 0, 0, 0), QteEffect::from_tenths(0, 0, -2, 0, 0, 0), EXPLICATION1_1, EXPLICATION2_1, 4_000));
    qtes.push(entry(TEXT_2, QteEffect::from_tenths(0, 0, 0, 0, -200, 0), QteEffect::from_tenths(0, 0, 0, 0, 200, -1), EXPLICATION1_2, EXPLICATION2_2, 4_000));
    qtes.push(entry(TEXT_3, QteEffect::from_tenths(0, 0, 0, 0, 0, 1), QteEffect::from_tenths(0, 0, 0, 0, 0, 0), EXPLICATION1_3, EXPLICATION2_3, 2_000));
    qtes.push(entry(TEXT_4, QteEffect::from_tenths(2, 0, 0, 4, 0, 0), QteEffect::from_tenths(-2, 0, 0, -4, 0, 0), EXPLICATION1_4, EXPLICATION2_4, 4_000));
    qtes.push(entry(TEXT_5, QteEffect::from_tenths(0, 1, 0, 0, -100, 0), QteEffect::from_tenths(0, -3, 0, 0, 0, 0), EXPLICATION1_5, EXPLICATION2_5, 4_000));
    qtes.push(entry(TEXT_6, QteEffect::from_tenths(0, 0, 0, 0, 0, 1), QteEffect::from_tenths(2, 0, 0, 0, 0, 0), EXPLICATION1_6, EXPLICATION2_6, 4_000));
    qtes.push(entry(TEXT_7, QteEffect::from_tenths(0, 0, 0, -3, 0, -1), QteEffect::from_tenths(-3, 0, 0, -3, 0, -1), EXPLICATION1_7, EXPLICATION2_7, 4_000));
    qtes.push(entry(TEXT_8, QteEffect::from_tenths(-3, 2, 0, 0, -100, 0), QteEffect::from_tenths(3, 0, 0, 0, 0, 0), EXPLICATION1_8, EXPLICATION2_8, 4_000));
    qtes.push(entry(TEXT_9, QteEffect::from_tenths(0, 0, 0, 0, -1000, 0), QteEffect::from_tenths(0, 0, 0, 0, 0, -2), EXPLICATION1_9, EXPLICATION2_9, 4_000));
    qtes.push(entry(TEXT_10, QteEffect::from_tenths(-1, -1, -1, -1, 0, 0), QteEffect::from_tenths(-3, -3, 0, 0, 0, 0), EXPLICATION1_10, EXPLICATION2_10, 4_000));
    qtes.push(entry(TEXT_11, QteEffect::from_tenths(0, 0, 0, 0, -100, 0), QteEffect::from_tenths(0, 0, 0, 0, 0, -1), EXPLICATION1_11, EXPLICATION2_11, 1_500));
    qtes.push(entry(TEXT_12, QteEffect::from_tenths(-3, 0, 0, -3, 0, 1), QteEffect::from_tenths(0, 0, 0, -2, 0, 0), EXPLICATION1_12, EXPLICATION2_12, 4_000));
    qtes.push(entry(TEXT_13, QteEffect::from_tenths(0, 0, 0, 0, -300, 0), QteEffect::from_tenths(0, 0, 0, -3, 0, 0), EXPLICATION1_13, EXPLICATION2_13, 4_000));
    qtes.push(entry(TEXT_14, QteEffect::from_tenths(0, -1, 0, 0, 0, 0), QteEffect::from_tenths(0, 0, -3, 0, 0, 0), EXPLICATION1_14, EXPLICATION2_14, 3_000));
    qtes
}

} // verus!
