# Allocation patrimoniale — moteur

Moteur d'allocation « études des enfants + revenus passifs » pour un foyer
(résident fiscal français, paramètres 2026). Outil informatif et pédagogique : ce
n'est pas un conseil en investissement.

## Organisation

| Dossier | Contenu |
|---|---|
| `src/` | Bibliothèque `engine`, vérifiée avec Verus : énumérations du questionnaire, règles de la saisie en famille (âge de référence, tolérance retenue, temps de gestion, abondement, écart de tolérance), choix du palier du glide path, durée de précaution, horizon des études, ordre des sous-poches, barème du score de profil, lignes ouvertes aux apports, enveloppes conseillées, tri et textes des alertes, règles de validation sur les effectifs, âges, notes et durées. |
| `tests/` | Tests de la bibliothèque sur des valeurs concrètes. |
| `app/` | Programme : calculs en virgule flottante (formules PMT/FV, budget, simulation, garde-fous, répartition des flux), formes JSON (serde, ts-rs), API HTTP axum et fonctions exposées au navigateur (wasm-bindgen). Il appelle la bibliothèque pour toutes les décisions qu'elle porte. |

Les montants et les taux sont des flottants : ils restent dans `app/`. La
bibliothèque reçoit ce qui ne dépend pas d'eux (entiers, énumérations, booléens,
textes déjà mis en forme) et ses fonctions sont prouvées contre leurs contrats.
